//! Rolling per-series history of durations, drawn as a strip chart.
//!
//! The chart holds one polyline per series, `capacity` points each, laid out
//! series after series. Within a series the point at `x == s` stands for the
//! `s`-th slot of the window: the newest sample is at `x == capacity - 1`, and
//! a history that is not yet full is aligned to the right, with the slots
//! before it at height zero. A point's height is its duration, clamped to the
//! chart's ceiling.
use vstd::prelude::*;

use vstd::arithmetic::div_mod::lemma_fundamental_div_mod_converse;

verus! {

/// The largest number of points a chart may hold.
pub const MAX_POINTS: usize = 16777216;

/// A point of the chart, in chart units: `x` is the slot in the window, `y`
/// the clamped duration.
#[derive(Clone, Copy, Debug, PartialEq, Eq, Structural)]
pub struct ChartPoint {
    pub x: u64,
    pub y: u64,
}

/// An opaque colour, one byte per channel.
#[derive(Clone, Copy, Debug, PartialEq, Eq, Structural)]
pub struct Rgb {
    pub r: u8,
    pub g: u8,
    pub b: u8,
}

/// The colour of series `i`: a palette of eight colours, repeated.
pub open spec fn series_color(i: int) -> Rgb {
    let c = i % 8;
    if c == 0 {
        Rgb { r: 230, g: 25, b: 75 }
    } else if c == 1 {
        Rgb { r: 60, g: 180, b: 75 }
    } else if c == 2 {
        Rgb { r: 255, g: 225, b: 25 }
    } else if c == 3 {
        Rgb { r: 0, g: 130, b: 200 }
    } else if c == 4 {
        Rgb { r: 245, g: 130, b: 48 }
    } else if c == 5 {
        Rgb { r: 145, g: 30, b: 180 }
    } else if c == 6 {
        Rgb { r: 70, g: 240, b: 240 }
    } else {
        Rgb { r: 240, g: 50, b: 230 }
    }
}

/// `d`, or `ceiling` where `d` is above it.
pub open spec fn clamp(d: u64, ceiling: u64) -> u64 {
    if d > ceiling { ceiling } else { d }
}

/// The last `k` samples of history `h` followed by `x`.
pub open spec fn window_push(h: Seq<u64>, x: u64, k: nat) -> Seq<u64> {
    let s = h.push(x);
    if s.len() > k { s.subrange(s.len() - k, s.len() as int) } else { s }
}

/// The point in slot `s` of a window of `k` slots that shows history `h`.
pub open spec fn chart_point(h: Seq<u64>, k: nat, ceiling: u64, s: int) -> ChartPoint {
    let offset = k - h.len();
    ChartPoint {
        x: s as u64,
        y: if s < offset { 0 } else { clamp(h[s - offset], ceiling) },
    }
}

/// The vertices of the chart of `history`: series after series, `k` each.
pub open spec fn chart_vertices(history: Seq<Seq<u64>>, k: nat, ceiling: u64) -> Seq<ChartPoint> {
    Seq::new(history.len() * k, |v: int| chart_point(history[v / (k as int)], k, ceiling, v % (k as int)))
}

/// One colour per vertex: each series in its own colour.
pub open spec fn chart_colors(n: nat, k: nat) -> Seq<Rgb> {
    Seq::new(n * k, |v: int| series_color(v / (k as int)))
}

/// The number of indices that one series of `k` points takes: two for each
/// segment between consecutive points.
pub open spec fn series_index_count(k: nat) -> nat {
    2 * (k - 1) as nat
}

/// The line list of the chart: segments join consecutive points of a series,
/// never points of two series.
pub open spec fn chart_indices(n: nat, k: nat) -> Seq<u32> {
    let w = series_index_count(k) as int;
    Seq::new(
        (n * w) as nat,
        |e: int| (e / w * k + (e % w) / 2 + (e % w) % 2) as u32,
    )
}

/// What a graph holds.
pub struct GraphState {
    pub series: nat,
    pub capacity: nat,
    pub ceiling: u64,
    /// Per series, the window of samples, oldest first.
    pub history: Seq<Seq<u64>>,
    pub vertices: Seq<ChartPoint>,
    pub colors: Seq<Rgb>,
    pub indices: Seq<u32>,
}

impl GraphState {
    pub open spec fn wf(self) -> bool {
        &&& self.series >= 1
        &&& self.capacity >= 1
        &&& self.series * self.capacity <= MAX_POINTS
        &&& self.history.len() == self.series
        &&& forall|i: int| 0 <= i < self.series ==> #[trigger] self.history[i].len() <= self.capacity
        &&& self.vertices.len() == self.series * self.capacity
        &&& self.colors == chart_colors(self.series, self.capacity)
        &&& self.indices == chart_indices(self.series, self.capacity)
    }

    /// A graph with empty histories and its all-zero chart.
    pub open spec fn fresh(series: nat, capacity: nat, ceiling: u64) -> GraphState {
        let history = Seq::new(series, |i: int| Seq::<u64>::empty());
        GraphState {
            series,
            capacity,
            ceiling,
            history,
            vertices: chart_vertices(history, capacity, ceiling),
            colors: chart_colors(series, capacity),
            indices: chart_indices(series, capacity),
        }
    }

    /// Each series' window after `samples[i]` has come into series `i`.
    pub open spec fn pushed(self, samples: Seq<u64>) -> GraphState {
        GraphState {
            history: Seq::new(
                self.series,
                |i: int| window_push(self.history[i], samples[i], self.capacity),
            ),
            ..self
        }
    }

    /// The graph with its vertices drawn anew from its histories.
    pub open spec fn rebuilt(self) -> GraphState {
        GraphState { vertices: chart_vertices(self.history, self.capacity, self.ceiling), ..self }
    }
}

/// The slot that holds the `t`-th oldest sample of a ring of `k` slots whose
/// oldest sample is in slot `head`.
pub open spec fn ring_slot(head: int, t: int, k: int) -> int {
    if head + t < k { head + t } else { head + t - k }
}

/// A bounded history of frame sample sets and the strip chart drawn from it.
/// Its vertex, colour and index arrays keep their sizes for its lifetime.
pub struct Graph {
    series: usize,
    capacity: usize,
    ceiling: u64,
    /// A ring of `capacity` frame sample sets, `series` samples each.
    frames: Vec<Vec<u64>>,
    head: usize,
    len: usize,
    vertices: Vec<ChartPoint>,
    colors: Vec<Rgb>,
    indices: Vec<u32>,
}

impl View for Graph {
    type V = GraphState;

    closed spec fn view(&self) -> GraphState {
        GraphState {
            series: self.series as nat,
            capacity: self.capacity as nat,
            ceiling: self.ceiling,
            history: Seq::new(
                self.series as nat,
                |i: int|
                    Seq::new(
                        self.len as nat,
                        |t: int| self.frames@[ring_slot(self.head as int, t, self.capacity as int)]@[i],
                    ),
            ),
            vertices: self.vertices@,
            colors: self.colors@,
            indices: self.indices@,
        }
    }
}

/// A window never holds more than `k` samples, the newest sample is the last
/// one in it, and once it is full each new sample evicts the oldest.
pub proof fn lemma_window_fifo(h: Seq<u64>, x: u64, k: nat)
    requires
        k >= 1,
        h.len() <= k,
    ensures
        window_push(h, x, k).len() <= k,
        window_push(h, x, k).last() == x,
        h.len() < k ==> window_push(h, x, k) == h.push(x),
        h.len() == k ==> window_push(h, x, k) == h.drop_first().push(x),
{
    if h.len() == k {
        assert(window_push(h, x, k) =~= h.drop_first().push(x));
    }
}

/// Pushing a frame sample set keeps every window within the graph's
/// capacity, and evicts the oldest sample of each window that was full.
pub proof fn lemma_push_keeps_bound(g: GraphState, samples: Seq<u64>)
    requires
        g.wf(),
        samples.len() == g.series,
    ensures
        g.pushed(samples).wf(),
        forall|i: int|
            0 <= i < g.series && g.history[i].len() == g.capacity ==> #[trigger] g.pushed(
                samples,
            ).history[i] == g.history[i].drop_first().push(samples[i]),
{
    let p = g.pushed(samples);
    assert forall|i: int| 0 <= i < p.series implies #[trigger] p.history[i].len() <= p.capacity by {
        lemma_window_fifo(g.history[i], samples[i], g.capacity);
    }
    assert forall|i: int|
        0 <= i < g.series && g.history[i].len() == g.capacity implies #[trigger] g.pushed(
            samples,
        ).history[i] == g.history[i].drop_first().push(samples[i]) by {
        lemma_window_fifo(g.history[i], samples[i], g.capacity);
    }
}

/// The chart has `series * capacity` vertices whatever has been pushed and
/// rebuilt: neither pushing nor rebuilding grows or shrinks it.
pub proof fn lemma_vertex_count_fixed(g: GraphState, samples: Seq<u64>)
    requires
        g.wf(),
        samples.len() == g.series,
    ensures
        g.vertices.len() == g.series * g.capacity,
        g.pushed(samples).vertices.len() == g.vertices.len(),
        g.rebuilt().vertices.len() == g.vertices.len(),
        g.pushed(samples).rebuilt().vertices.len() == g.vertices.len(),
        g.rebuilt().wf(),
{
    lemma_push_keeps_bound(g, samples);
}

/// Rebuilding twice with no push in between gives the same chart as
/// rebuilding once.
pub proof fn lemma_rebuild_idempotent(g: GraphState)
    ensures
        g.rebuilt().rebuilt() == g.rebuilt(),
{
}

/// `v` is the `s`-th point of the `i`-th run of `k`.
proof fn lemma_flat_index(v: int, k: int, i: int, s: int)
    requires
        k > 0,
        0 <= s < k,
        v == i * k + s,
    ensures
        v / k == i,
        v % k == s,
{
    lemma_fundamental_div_mod_converse(v, k, i, s);
}

/// The colour of series `i`.
pub fn palette_color(i: usize) -> (r: Rgb)
    ensures
        r == series_color(i as int),
{
    let c = i % 8;
    if c == 0 {
        Rgb { r: 230, g: 25, b: 75 }
    } else if c == 1 {
        Rgb { r: 60, g: 180, b: 75 }
    } else if c == 2 {
        Rgb { r: 255, g: 225, b: 25 }
    } else if c == 3 {
        Rgb { r: 0, g: 130, b: 200 }
    } else if c == 4 {
        Rgb { r: 245, g: 130, b: 48 }
    } else if c == 5 {
        Rgb { r: 145, g: 30, b: 180 }
    } else if c == 6 {
        Rgb { r: 70, g: 240, b: 240 }
    } else {
        Rgb { r: 240, g: 50, b: 230 }
    }
}

/// A sequence of `n` zeros.
fn zeros(n: usize) -> (r: Vec<u64>)
    ensures
        r@ == Seq::new(n as nat, |j: int| 0u64),
{
    let mut r: Vec<u64> = Vec::new();
    let mut j: usize = 0;
    while j < n
        invariant
            j <= n,
            r@ == Seq::new(j as nat, |q: int| 0u64),
        decreases n - j,
    {
        r.push(0);
        j = j + 1;
        proof {
            assert(r@ =~= Seq::new(j as nat, |q: int| 0u64));
        }
    }
    r
}

/// One colour per point of `n` series of `k` points.
fn build_colors(n: usize, k: usize) -> (r: Vec<Rgb>)
    requires
        k >= 1,
        n * k <= MAX_POINTS,
    ensures
        r@ == chart_colors(n as nat, k as nat),
{
    let mut r: Vec<Rgb> = Vec::new();
    let mut i: usize = 0;
    while i < n
        invariant
            i <= n,
            k >= 1,
            r.len() == i * k,
            forall|v: int| 0 <= v < r.len() ==> #[trigger] r@[v] == series_color(v / k as int),
        decreases n - i,
    {
        let c = palette_color(i);
        let mut s: usize = 0;
        while s < k
            invariant
                s <= k,
                i < n,
                k >= 1,
                c == series_color(i as int),
                r.len() == i * k + s,
                forall|v: int| 0 <= v < r.len() ==> #[trigger] r@[v] == series_color(v / k as int),
            decreases k - s,
        {
            proof {
                lemma_flat_index(r.len() as int, k as int, i as int, s as int);
            }
            r.push(c);
            s = s + 1;
        }
        proof {
            assert((i + 1) * k == i * k + k) by (nonlinear_arith);
        }
        i = i + 1;
    }
    proof {
        assert(r@ =~= chart_colors(n as nat, k as nat));
    }
    r
}

/// The line list of `n` series of `k` points.
fn build_indices(n: usize, k: usize) -> (r: Vec<u32>)
    requires
        n >= 1,
        k >= 1,
        n * k <= MAX_POINTS,
    ensures
        r@ == chart_indices(n as nat, k as nat),
{
    proof {
        assert(k <= n * k) by (nonlinear_arith)
            requires
                n >= 1,
        ;
    }
    let w: usize = 2 * (k - 1);
    let ghost wn = series_index_count(k as nat) as int;
    let mut r: Vec<u32> = Vec::new();
    let mut i: usize = 0;
    let mut base: usize = 0;
    while i < n
        invariant
            i <= n,
            k >= 1,
            n * k <= MAX_POINTS,
            w == wn,
            wn == 2 * (k - 1),
            base == i * k,
            r.len() == i * wn,
            forall|e: int|
                0 <= e < r.len() ==> #[trigger] r@[e] == (e / wn * k + (e % wn) / 2 + (e % wn)
                    % 2) as u32,
        decreases n - i,
    {
        proof {
            assert((i + 1) * k <= n * k) by (nonlinear_arith)
                requires
                    i + 1 <= n,
                    k >= 1,
            ;
            assert((i + 1) * k == i * k + k) by (nonlinear_arith);
        }
        let mut q: usize = 0;
        while q < w
            invariant
                q <= w,
                i < n,
                k >= 1,
                w == wn,
                wn == 2 * (k - 1),
                base == i * k,
                base + k <= MAX_POINTS,
                r.len() == i * wn + q,
                forall|e: int|
                    0 <= e < r.len() ==> #[trigger] r@[e] == (e / wn * k + (e % wn) / 2 + (e
                        % wn) % 2) as u32,
            decreases w - q,
        {
            proof {
                lemma_flat_index(r.len() as int, wn, i as int, q as int);
            }
            let value: usize = base + q / 2 + q % 2;
            r.push(value as u32);
            q = q + 1;
        }
        proof {
            assert((i + 1) * wn == i * wn + wn) by (nonlinear_arith);
        }
        base = base + k;
        i = i + 1;
    }
    proof {
        assert(r@ =~= chart_indices(n as nat, k as nat));
    }
    r
}

impl Graph {
    /// The representation's invariant: the ring holds `capacity` frame
    /// sample sets of `series` samples each.
    pub closed spec fn inv(&self) -> bool {
        &&& self@.wf()
        &&& self.frames.len() == self.capacity
        &&& forall|slot: int| 0 <= slot < self.capacity ==> #[trigger] self.frames@[slot].len() == self.series
        &&& self.head < self.capacity
        &&& self.len <= self.capacity
    }

    pub proof fn lemma_inv_wf(&self)
        requires
            self.inv(),
        ensures
            self@.wf(),
    {
    }

    /// A chart for `series` watchpoints and a window of `capacity` samples,
    /// whose heights are clamped to `ceiling`. It fails (`None`) where there
    /// is no series, no slot, or more than `MAX_POINTS` points.
    pub fn new(series: usize, capacity: usize, ceiling: u64) -> (r: Option<Graph>)
        ensures
            r is None <==> (series == 0 || capacity == 0 || series * capacity > MAX_POINTS),
            r matches Some(g) ==> g.inv() && g@ == GraphState::fresh(
                series as nat,
                capacity as nat,
                ceiling,
            ),
    {
        if series == 0 || capacity == 0 {
            return None;
        }
        let points: usize = match series.checked_mul(capacity) {
            None => { return None; },
            Some(p) => p,
        };
        if points > MAX_POINTS {
            return None;
        }
        let mut frames: Vec<Vec<u64>> = Vec::new();
        let mut j: usize = 0;
        while j < capacity
            invariant
                j <= capacity,
                frames.len() == j,
                forall|slot: int| 0 <= slot < j ==> #[trigger] frames@[slot]@ == Seq::new(series as nat, |q: int| 0u64),
            decreases capacity - j,
        {
            frames.push(zeros(series));
            j = j + 1;
        }
        let mut vertices: Vec<ChartPoint> = Vec::new();
        let mut v: usize = 0;
        while v < points
            invariant
                v <= points,
                vertices.len() == v,
            decreases points - v,
        {
            vertices.push(ChartPoint { x: 0, y: 0 });
            v = v + 1;
        }
        let colors = build_colors(series, capacity);
        let indices = build_indices(series, capacity);
        let mut g = Graph { series, capacity, ceiling, frames, head: 0, len: 0, vertices, colors, indices };
        let ghost fresh = GraphState::fresh(series as nat, capacity as nat, ceiling);
        proof {
            assert forall|i: int| 0 <= i < series implies #[trigger] g@.history[i] =~= fresh.history[i] by {}
            assert(g@.history =~= fresh.history);
        }
        g.rebuild_geometry();
        proof {
            assert(g@ =~= GraphState::fresh(series as nat, capacity as nat, ceiling));
        }
        Some(g)
    }

    /// Draws the vertices anew from the histories, in place.
    pub fn rebuild_geometry(&mut self)
        requires
            old(self).inv(),
        ensures
            final(self).inv(),
            final(self)@ == old(self)@.rebuilt(),
    {
        let n = self.series;
        let k = self.capacity;
        let offset: usize = k - self.len;
        let ghost hist = old(self)@.history;
        let ghost want = chart_vertices(hist, k as nat, self.ceiling);
        proof {
            assert(k <= n * k) by (nonlinear_arith)
                requires
                    n >= 1,
            ;
        }
        let mut i: usize = 0;
        let mut v: usize = 0;
        while i < n
            invariant
                old(self).inv(),
                n == old(self).series,
                k == old(self).capacity,
                offset == k - old(self).len,
                hist == old(self)@.history,
                want == chart_vertices(hist, k as nat, old(self).ceiling),
                self.series == old(self).series,
                self.capacity == old(self).capacity,
                self.ceiling == old(self).ceiling,
                self.frames == old(self).frames,
                self.head == old(self).head,
                self.len == old(self).len,
                self.colors == old(self).colors,
                self.indices == old(self).indices,
                i <= n,
                k <= MAX_POINTS,
                v == i * k,
                self.vertices.len() == n * k,
                forall|u: int| 0 <= u < v ==> #[trigger] self.vertices@[u] == want[u],
            decreases n - i,
        {
            proof {
                assert((i + 1) * k <= n * k) by (nonlinear_arith)
                    requires
                        i + 1 <= n,
                ;
                assert((i + 1) * k == i * k + k) by (nonlinear_arith);
            }
            let mut s: usize = 0;
            while s < k
                invariant
                    old(self).inv(),
                    n == old(self).series,
                    k == old(self).capacity,
                    offset == k - old(self).len,
                    hist == old(self)@.history,
                    want == chart_vertices(hist, k as nat, old(self).ceiling),
                    self.series == old(self).series,
                    self.capacity == old(self).capacity,
                    self.ceiling == old(self).ceiling,
                    self.frames == old(self).frames,
                    self.head == old(self).head,
                    self.len == old(self).len,
                    self.colors == old(self).colors,
                    self.indices == old(self).indices,
                    i < n,
                    s <= k,
                    k <= MAX_POINTS,
                    v == i * k + s,
                    (i + 1) * k <= n * k,
                    (i + 1) * k == i * k + k,
                    self.vertices.len() == n * k,
                    forall|u: int| 0 <= u < v ==> #[trigger] self.vertices@[u] == want[u],
                decreases k - s,
            {
                let y: u64 = if s < offset {
                    0
                } else {
                    let t: usize = s - offset;
                    let slot: usize = if self.head + t < k {
                        self.head + t
                    } else {
                        self.head + t - k
                    };
                    proof {
                        assert(self.frames@[slot as int].len() == n);
                    }
                    let d: u64 = self.frames[slot][i];
                    if d > self.ceiling {
                        self.ceiling
                    } else {
                        d
                    }
                };
                proof {
                    lemma_flat_index(v as int, k as int, i as int, s as int);
                    assert(hist[i as int].len() == self.len);
                }
                self.vertices.set(v, ChartPoint { x: s as u64, y });
                v = v + 1;
                s = s + 1;
            }
            i = i + 1;
        }
        proof {
            assert(self.vertices@ =~= want);
            assert(self@ =~= old(self)@.rebuilt());
        }
    }

    /// Takes in one frame sample set: sample `i` enters the window of series
    /// `i`, and where that window is full its oldest sample leaves it. The
    /// vertices are left as they are until the next rebuild.
    pub fn push_sample(&mut self, samples: &Vec<u64>)
        requires
            old(self).inv(),
            samples.len() == old(self)@.series,
        ensures
            final(self).inv(),
            final(self)@ == old(self)@.pushed(samples@),
    {
        let n = self.series;
        let k = self.capacity;
        proof {
            assert(k <= n * k) by (nonlinear_arith)
                requires
                    n >= 1,
            ;
        }
        let mut row: Vec<u64> = Vec::new();
        let mut i: usize = 0;
        while i < n
            invariant
                i <= n,
                n == samples.len(),
                row@ == samples@.subrange(0, i as int),
            decreases n - i,
        {
            row.push(samples[i]);
            i = i + 1;
            proof {
                assert(row@ =~= samples@.subrange(0, i as int));
            }
        }
        proof {
            assert(row@ =~= samples@);
        }
        let ghost old_h = old(self)@.history;
        if self.len < k {
            let slot: usize = if self.head + self.len < k {
                self.head + self.len
            } else {
                self.head + self.len - k
            };
            self.frames.set(slot, row);
            self.len = self.len + 1;
            proof {
                assert forall|i: int| 0 <= i < n implies #[trigger] self@.history[i] =~= window_push(
                    old_h[i],
                    samples@[i],
                    k as nat,
                ) by {
                    assert forall|t: int| 0 <= t < self.len implies self@.history[i][t]
                        == window_push(old_h[i], samples@[i], k as nat)[t] by {
                        if t < self.len - 1 {
                            assert(old_h[i][t] == old(self).frames@[ring_slot(self.head as int, t, k as int)]@[i]);
                        }
                    }
                }
            }
        } else {
            let slot: usize = self.head;
            self.frames.set(slot, row);
            self.head = if self.head + 1 < k {
                self.head + 1
            } else {
                0
            };
            proof {
                assert forall|i: int| 0 <= i < n implies #[trigger] self@.history[i] =~= window_push(
                    old_h[i],
                    samples@[i],
                    k as nat,
                ) by {
                    assert forall|t: int| 0 <= t < self.len implies self@.history[i][t]
                        == window_push(old_h[i], samples@[i], k as nat)[t] by {
                        if t < self.len - 1 {
                            assert(old_h[i][t + 1] == old(self).frames@[ring_slot(old(self).head as int, t + 1, k as int)]@[i]);
                        }
                    }
                }
            }
        }
        proof {
            assert forall|slot: int| 0 <= slot < self.capacity implies #[trigger] self.frames@[slot].len()
                == self.series by {
                assert(old(self).frames@[slot].len() == n);
            }
            assert(self@.history =~= old(self)@.pushed(samples@).history);
            assert(self@ =~= old(self)@.pushed(samples@));
        }
    }

    /// The window of series `i`, oldest sample first.
    pub fn history(&self, i: usize) -> (r: Vec<u64>)
        requires
            self.inv(),
            i < self@.series,
        ensures
            r@ == self@.history[i as int],
    {
        let k = self.capacity;
        proof {
            assert(k <= self.series * k) by (nonlinear_arith)
                requires
                    self.series >= 1,
            ;
        }
        let mut r: Vec<u64> = Vec::new();
        let mut t: usize = 0;
        while t < self.len
            invariant
                self.inv(),
                i < self.series,
                k == self.capacity,
                k <= MAX_POINTS,
                t <= self.len,
                r@ == self@.history[i as int].subrange(0, t as int),
            decreases self.len - t,
        {
            let slot: usize = if self.head + t < k {
                self.head + t
            } else {
                self.head + t - k
            };
            proof {
                assert(self.frames@[slot as int].len() == self.series);
            }
            r.push(self.frames[slot][i]);
            t = t + 1;
            proof {
                assert(r@ =~= self@.history[i as int].subrange(0, t as int));
            }
        }
        proof {
            assert(r@ =~= self@.history[i as int]);
        }
        r
    }

    /// The number of series.
    pub fn series(&self) -> (r: usize)
        ensures
            r == self@.series,
    {
        self.series
    }

    /// The number of slots in each window.
    pub fn capacity(&self) -> (r: usize)
        ensures
            r == self@.capacity,
    {
        self.capacity
    }

    /// The chart's vertices.
    pub fn vertices(&self) -> (r: &Vec<ChartPoint>)
        ensures
            r@ == self@.vertices,
    {
        &self.vertices
    }

    /// The colour of each vertex.
    pub fn colors(&self) -> (r: &Vec<Rgb>)
        ensures
            r@ == self@.colors,
    {
        &self.colors
    }

    /// The chart's line list.
    pub fn indices(&self) -> (r: &Vec<u32>)
        ensures
            r@ == self@.indices,
    {
        &self.indices
    }
}

} // verus!
