//! A fixed set of watchpoints, each timing one code region per frame.
use vstd::prelude::*;

use crate::clock::{clock_origin, duration_nanos, time_since, to_u64_nanos};
use crate::graph::Graph;

verus! {

/// What a watch holds, seen as sequences indexed by watchpoint.
pub struct WatchState {
    /// The start timestamp of each watchpoint that is running.
    pub running: Seq<Option<u64>>,
    /// The duration that each watchpoint completed during the current frame.
    pub pending: Seq<Option<u64>>,
    /// The frame sample set: the duration each watchpoint reports.
    pub durations: Seq<u64>,
}

impl WatchState {
    pub open spec fn size(self) -> nat {
        self.durations.len()
    }

    pub open spec fn wf(self) -> bool {
        &&& self.running.len() == self.durations.len()
        &&& self.pending.len() == self.durations.len()
    }

    /// The state of a watch of `size` watchpoints that has not been used.
    pub open spec fn fresh(size: nat) -> WatchState {
        WatchState {
            running: Seq::new(size, |i: int| None),
            pending: Seq::new(size, |i: int| None),
            durations: Seq::new(size, |i: int| 0u64),
        }
    }

    /// Starting watchpoint `index` at time `now`. An index out of range, or a
    /// watchpoint that is already running, leaves the state as it is: a
    /// running interval keeps the timestamp of its first start.
    pub open spec fn started(self, index: int, now: u64) -> WatchState {
        if 0 <= index < self.size() && self.running[index] is None {
            WatchState { running: self.running.update(index, Some(now)), ..self }
        } else {
            self
        }
    }

    /// Stopping watchpoint `index` at time `now` records the time since its
    /// start (zero if the clock reads earlier) as its duration for this
    /// frame. An index out of range, or a watchpoint that is not running,
    /// leaves the state as it is.
    pub open spec fn stopped(self, index: int, now: u64) -> WatchState {
        if 0 <= index < self.size() && self.running[index] is Some {
            let t0 = self.running[index]->0;
            WatchState {
                running: self.running.update(index, None),
                pending: self.pending.update(index, Some(elapsed(t0, now))),
                ..self
            }
        } else {
            self
        }
    }

    /// Ending a frame: each watchpoint that completed an interval in it
    /// reports that duration; every other one keeps reporting its previous
    /// duration. The completed intervals are cleared; running ones go on.
    pub open spec fn frame_ended(self) -> WatchState {
        WatchState {
            running: self.running,
            pending: Seq::new(self.size(), |i: int| None),
            durations: Seq::new(
                self.size(),
                |i: int|
                    match self.pending[i] {
                        Some(d) => d,
                        None => self.durations[i],
                    },
            ),
        }
    }
}

/// The time from `t0` to `t1`, or zero where `t1` is earlier.
pub open spec fn elapsed(t0: u64, t1: u64) -> u64 {
    if t1 >= t0 { (t1 - t0) as u64 } else { 0 }
}

/// A watchpoint that completes no interval in a frame reports, once the
/// frame ends, the same duration as before it.
pub proof fn lemma_carry_forward(w: WatchState, i: int)
    requires
        w.wf(),
        0 <= i < w.size(),
        w.pending[i] is None,
    ensures
        w.frame_ended().durations[i] == w.durations[i],
{
}

/// A start at `t0` and a stop at `t1` record, once the frame ends, the time
/// between the two readings: `t1 - t0`, and never less than zero.
pub proof fn lemma_interval_recorded(w: WatchState, i: int, t0: u64, t1: u64)
    requires
        w.wf(),
        0 <= i < w.size(),
        w.running[i] is None,
    ensures
        w.started(i, t0).stopped(i, t1).frame_ended().durations[i] == elapsed(t0, t1),
        t0 <= t1 ==> elapsed(t0, t1) == t1 - t0,
        t1 < t0 ==> elapsed(t0, t1) == 0,
{
}

/// A second start with no stop in between changes nothing: the interval
/// still runs from the first start.
pub proof fn lemma_restart_ignored(w: WatchState, i: int, t0: u64, t1: u64)
    requires
        w.wf(),
        0 <= i < w.size(),
        w.running[i] is None,
    ensures
        w.started(i, t0).started(i, t1) == w.started(i, t0),
        w.started(i, t0).started(i, t1).stopped(i, t1).pending[i] == Some(elapsed(t0, t1)),
{
}

/// A set of independently startable and stoppable timers, one per measured
/// region, that yields one duration per watchpoint and frame. Timestamps are
/// nanoseconds since the watch was made.
pub struct Watch {
    origin: instant::Instant,
    running: Vec<Option<u64>>,
    pending: Vec<Option<u64>>,
    durations: Vec<u64>,
}

impl View for Watch {
    type V = WatchState;

    closed spec fn view(&self) -> WatchState {
        WatchState { running: self.running@, pending: self.pending@, durations: self.durations@ }
    }
}

impl Watch {
    /// A watch of `size` watchpoints, none running, each reporting zero.
    pub fn new(size: usize) -> (r: Watch)
        ensures
            r@ == WatchState::fresh(size as nat),
            r@.wf(),
    {
        let mut running: Vec<Option<u64>> = Vec::new();
        let mut pending: Vec<Option<u64>> = Vec::new();
        let mut durations: Vec<u64> = Vec::new();
        let mut i: usize = 0;
        while i < size
            invariant
                i <= size,
                running@ == Seq::new(i as nat, |j: int| None::<u64>),
                pending@ == Seq::new(i as nat, |j: int| None::<u64>),
                durations@ == Seq::new(i as nat, |j: int| 0u64),
            decreases size - i,
        {
            running.push(None);
            pending.push(None);
            durations.push(0);
            i = i + 1;
            proof {
                assert(running@ =~= Seq::new(i as nat, |j: int| None::<u64>));
                assert(pending@ =~= Seq::new(i as nat, |j: int| None::<u64>));
                assert(durations@ =~= Seq::new(i as nat, |j: int| 0u64));
            }
        }
        let r = Watch { origin: clock_origin(), running, pending, durations };
        proof {
            assert(r@ =~= WatchState::fresh(size as nat));
        }
        r
    }

    /// The number of watchpoints.
    pub fn size(&self) -> (r: usize)
        requires
            self@.wf(),
        ensures
            r == self@.size(),
    {
        self.durations.len()
    }

    /// The nanoseconds since the watch was made, as the clock reads now.
    pub fn now(&self) -> (r: u64) {
        to_u64_nanos(duration_nanos(&time_since(&self.origin)))
    }

    /// Starts watchpoint `index` at timestamp `now`.
    pub fn start_at(&mut self, index: usize, now: u64)
        requires
            old(self)@.wf(),
        ensures
            final(self)@ == old(self)@.started(index as int, now),
            final(self)@.wf(),
    {
        if index < self.running.len() && self.running[index].is_none() {
            self.running.set(index, Some(now));
        }
    }

    /// Stops watchpoint `index` at timestamp `now`, recording its duration
    /// for the current frame.
    pub fn stop_at(&mut self, index: usize, now: u64)
        requires
            old(self)@.wf(),
        ensures
            final(self)@ == old(self)@.stopped(index as int, now),
            final(self)@.wf(),
    {
        if index < self.running.len() {
            match self.running[index] {
                Some(t0) => {
                    let d: u64 = if now >= t0 { now - t0 } else { 0 };
                    self.running.set(index, None);
                    self.pending.set(index, Some(d));
                }
                None => {}
            }
        }
    }

    /// Starts watchpoint `index` at the clock's current reading.
    pub fn start(&mut self, index: usize)
        requires
            old(self)@.wf(),
        ensures
            final(self)@.wf(),
            exists|t: u64| final(self)@ == old(self)@.started(index as int, t),
    {
        let t = self.now();
        self.start_at(index, t);
    }

    /// Stops watchpoint `index` at the clock's current reading.
    pub fn stop(&mut self, index: usize)
        requires
            old(self)@.wf(),
        ensures
            final(self)@.wf(),
            exists|t: u64| final(self)@ == old(self)@.stopped(index as int, t),
    {
        let t = self.now();
        self.stop_at(index, t);
    }

    /// Ends the frame: finalises the frame sample set, carrying forward the
    /// duration of each watchpoint that completed no interval in it.
    pub fn update(&mut self)
        requires
            old(self)@.wf(),
        ensures
            final(self)@ == old(self)@.frame_ended(),
            final(self)@.wf(),
    {
        let n = self.durations.len();
        let mut i: usize = 0;
        while i < n
            invariant
                i <= n,
                n == old(self)@.size(),
                old(self)@.wf(),
                self.running@ == old(self)@.running,
                self.pending.len() == n,
                self.durations.len() == n,
                forall|j: int| 0 <= j < i ==> self.pending@[j] is None,
                forall|j: int| i <= j < n ==> self.pending@[j] == old(self)@.pending[j],
                forall|j: int|
                    #![trigger self.durations@[j]]
                    0 <= j < n ==> self.durations@[j] == (match old(self)@.pending[j] {
                        Some(d) => if j < i { d } else { old(self)@.durations[j] },
                        None => old(self)@.durations[j],
                    }),
            decreases n - i,
        {
            match self.pending[i] {
                Some(d) => {
                    self.durations.set(i, d);
                }
                None => {}
            }
            self.pending.set(i, None);
            i = i + 1;
        }
        proof {
            let want = old(self)@.frame_ended();
            assert(self.pending@ =~= want.pending);
            assert(self.durations@ =~= want.durations);
            assert(self@ =~= want);
        }
    }

    /// Hands the frame sample set to `graph`: each duration enters its
    /// series' window, and the chart is drawn anew.
    pub fn update_viewer(&self, graph: &mut Graph)
        requires
            self@.wf(),
            old(graph).inv(),
            old(graph)@.series == self@.size(),
        ensures
            final(graph).inv(),
            final(graph)@ == old(graph)@.pushed(self@.durations).rebuilt(),
    {
        graph.push_sample(&self.durations);
        graph.rebuild_geometry();
    }

    /// The frame sample set: the duration each watchpoint reports.
    pub fn durations(&self) -> (r: &Vec<u64>)
        ensures
            r@ == self@.durations,
    {
        &self.durations
    }

    /// Whether watchpoint `index` is running.
    pub fn is_running(&self, index: usize) -> (r: bool)
        requires
            self@.wf(),
        ensures
            r == (index < self@.size() && self@.running[index as int] is Some),
    {
        index < self.running.len() && self.running[index].is_some()
    }
}

} // verus!
