//! The performance overlay: a watch and its chart, shown on demand.
use vstd::prelude::*;

use crate::graph::{Graph, GraphState};
use crate::watch::{Watch, WatchState};

verus! {

/// The number of measured regions.
pub const WATCHPOINTS_SIZE: usize = 5;

/// The number of frames each series of the chart shows.
pub const HISTORY_SIZE: usize = 5;

/// The duration, in nanoseconds, at which the chart's lines stop rising.
pub const CHART_CEILING: u64 = 50000000;

/// An indexed draw of the chart's line list.
#[derive(Clone, Copy, Debug, PartialEq, Eq, Structural)]
pub struct DrawCall {
    pub index_count: u32,
    pub instance_count: u32,
}

/// Times the regions of each frame and keeps their chart. Measurement goes on
/// whether or not the overlay is shown, so that showing it displays the
/// history at once.
pub struct PerformanceMonitor {
    pub watch: Watch,
    pub graph: Graph,
    pub show: bool,
}

impl PerformanceMonitor {
    pub open spec fn wf(&self) -> bool {
        &&& self.watch@.wf()
        &&& self.graph.inv()
        &&& self.graph@.series == self.watch@.size()
    }

    /// A hidden overlay of `WATCHPOINTS_SIZE` watchpoints, charted over
    /// `HISTORY_SIZE` frames.
    pub fn new() -> (r: PerformanceMonitor)
        ensures
            r.wf(),
            r.watch@ == WatchState::fresh(WATCHPOINTS_SIZE as nat),
            r.graph@ == GraphState::fresh(
                WATCHPOINTS_SIZE as nat,
                HISTORY_SIZE as nat,
                CHART_CEILING,
            ),
            !r.show,
    {
        let watch = Watch::new(WATCHPOINTS_SIZE);
        let graph = match Graph::new(WATCHPOINTS_SIZE, HISTORY_SIZE, CHART_CEILING) {
            Some(g) => g,
            None => vstd::pervasive::unreached(),
        };
        PerformanceMonitor { watch, graph, show: false }
    }

    /// Ends the frame: the watch finalises its samples, they enter the
    /// chart's windows, and the chart is drawn anew.
    pub fn update(&mut self)
        requires
            old(self).wf(),
        ensures
            final(self).wf(),
            final(self).watch@ == old(self).watch@.frame_ended(),
            final(self).graph@ == old(self).graph@.pushed(final(self).watch@.durations).rebuilt(),
            final(self).show == old(self).show,
    {
        self.watch.update();
        self.watch.update_viewer(&mut self.graph);
    }

    /// Shows a hidden overlay, hides a shown one.
    pub fn toggle_show(&mut self)
        ensures
            final(self).show == !old(self).show,
            final(self).watch == old(self).watch,
            final(self).graph == old(self).graph,
    {
        self.show = !self.show;
    }

    /// The draw to issue this frame: the whole line list, once, where the
    /// overlay is shown; nothing where it is hidden.
    pub fn draw(&self) -> (r: Option<DrawCall>)
        requires
            self.wf(),
        ensures
            r is Some <==> self.show,
            r matches Some(c) ==> c.index_count == self.graph@.indices.len() && c.instance_count
                == 1,
    {
        if self.show {
            proof {
                self.graph.lemma_inv_wf();
                let n = self.graph@.series;
                let k = self.graph@.capacity;
                assert(n * (2 * (k - 1)) <= 2 * (n * k)) by (nonlinear_arith)
                    requires
                        k >= 1,
                ;
            }
            let count = self.graph.indices().len();
            Some(DrawCall { index_count: count as u32, instance_count: 1 })
        } else {
            None
        }
    }
}

} // verus!
