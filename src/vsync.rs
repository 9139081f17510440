//! Raster counters and the composite-sync signal that the CPU samples.
use vstd::arithmetic::div_mod::{lemma_add_mod_noop, lemma_fundamental_div_mod_converse, lemma_small_mod};
use vstd::prelude::*;

verus! {

/// Horizontal and vertical timing of one video mode, in pixel clocks and lines.
#[derive(Clone, Copy, Debug, PartialEq, Eq, Structural)]
pub struct Timing {
    pub h_active: u16,
    pub h_fp: u16,
    pub h_sync: u16,
    pub h_bp: u16,
    pub v_active: u16,
    pub v_fp: u16,
    /// Lines of (serrated) vertical sync.
    pub v_sync: u16,
    pub v_bp: u16,
}

/// Which part of the frame the current line belongs to, with the line index
/// inside that part.
#[derive(Clone, Copy, Debug, PartialEq, Eq, Structural)]
pub enum SyncPhase {
    VSync(u16),
    Active(u16),
    FrontPorch(u16),
    BackPorch(u16),
}

impl Timing {
    pub open spec fn spec_htot(&self) -> int {
        self.h_active + self.h_fp + self.h_sync + self.h_bp
    }

    pub open spec fn spec_vtot(&self) -> int {
        self.v_active + self.v_fp + self.v_sync + self.v_bp
    }

    /// Totals fit the counters, the frame is not empty, and the horizontal sync
    /// window and the vertical sync lines lie inside a line and a frame.
    pub open spec fn wf(&self) -> bool {
        &&& 0 < self.spec_htot() <= u16::MAX
        &&& 0 < self.spec_vtot() <= u16::MAX
        &&& self.h_sync < self.spec_htot()
        &&& self.v_sync < self.spec_vtot()
    }

    /// Pixel clocks per line.
    pub fn htot(&self) -> (r: u16)
        requires
            self.spec_htot() <= u16::MAX,
        ensures
            r == self.spec_htot(),
    {
        self.h_active + self.h_fp + self.h_sync + self.h_bp
    }

    /// Lines per frame.
    pub fn vtot(&self) -> (r: u16)
        requires
            self.spec_vtot() <= u16::MAX,
        ensures
            r == self.spec_vtot(),
    {
        self.v_active + self.v_fp + self.v_sync + self.v_bp
    }

    /// Pixel clocks per frame.
    pub fn pixel_tot(&self) -> (r: u16)
        requires
            self.spec_htot() <= u16::MAX,
            self.spec_vtot() <= u16::MAX,
            self.spec_htot() * self.spec_vtot() <= u16::MAX,
        ensures
            r == self.spec_htot() * self.spec_vtot(),
    {
        let h = self.htot();
        let v = self.vtot();
        h * v
    }
}

/// The level that the CPU sees (the inverse of the active-low composite-sync
/// pin) at raster position `(x, y)`.
///
/// Outside vertical sync it is high inside the horizontal sync window. Inside
/// vertical sync it is serrated: high everywhere but the horizontal sync
/// window, with one extra high slot at `x == 2` on the last sync line.
pub open spec fn csync_level(t: Timing, x: int, y: int) -> bool {
    let in_hsync = 0 <= x < t.h_sync;
    let in_vsync = 0 <= y < t.v_sync;
    if in_vsync {
        !in_hsync || (y == t.v_sync - 1 && x == 2)
    } else {
        in_hsync
    }
}

/// The raster position one pixel clock after `(x, y)`.
pub open spec fn next_x(t: Timing, x: int) -> int {
    if x + 1 == t.spec_htot() {
        0
    } else {
        x + 1
    }
}

pub open spec fn next_y(t: Timing, x: int, y: int) -> int {
    if x + 1 == t.spec_htot() {
        if y + 1 == t.spec_vtot() {
            0
        } else {
            y + 1
        }
    } else {
        y
    }
}

/// The sync generator: a timing and the raster position within a frame.
#[derive(Debug)]
pub struct SyncGen {
    pub t: Timing,
    pub x: u16,
    pub y: u16,
}

impl SyncGen {
    /// The timing is well formed and the raster position lies inside the frame.
    pub open spec fn wf(&self) -> bool {
        &&& self.t.wf()
        &&& self.x < self.t.spec_htot()
        &&& self.y < self.t.spec_vtot()
    }

    /// A generator at the top-left of the frame.
    pub fn new(t: Timing) -> (r: SyncGen)
        ensures
            r.t == t,
            r.x == 0,
            r.y == 0,
            t.wf() ==> r.wf(),
    {
        SyncGen { t, x: 0, y: 0 }
    }

    /// The part of the frame that the current line belongs to. A frame runs
    /// vertical sync, back porch, active lines, front porch.
    pub fn phase(&self) -> (r: SyncPhase)
        requires
            self.wf(),
        ensures
            r == (if self.y < self.t.v_sync {
                SyncPhase::VSync(self.y)
            } else if self.y - self.t.v_sync < self.t.v_bp {
                SyncPhase::BackPorch((self.y - self.t.v_sync) as u16)
            } else if self.y - self.t.v_sync - self.t.v_bp < self.t.v_active {
                SyncPhase::Active((self.y - self.t.v_sync - self.t.v_bp) as u16)
            } else {
                SyncPhase::FrontPorch((self.y - self.t.v_sync - self.t.v_bp - self.t.v_active) as u16)
            }),
    {
        let v_sync_end = self.t.v_sync;
        if self.y < v_sync_end {
            SyncPhase::VSync(self.y)
        } else {
            let y = self.y - v_sync_end;
            if y < self.t.v_bp {
                SyncPhase::BackPorch(y)
            } else {
                let y = y - self.t.v_bp;
                if y < self.t.v_active {
                    SyncPhase::Active(y)
                } else {
                    SyncPhase::FrontPorch(y - self.t.v_active)
                }
            }
        }
    }

    /// Advance by one pixel clock. Returns the level of the composite-sync
    /// signal as the CPU sees it at the position before the advance.
    pub fn tick(&mut self) -> (r: bool)
        requires
            old(self).wf(),
        ensures
            final(self).wf(),
            final(self).t == old(self).t,
            r == csync_level(old(self).t, old(self).x as int, old(self).y as int),
            final(self).x == next_x(old(self).t, old(self).x as int),
            final(self).y == next_y(old(self).t, old(self).x as int, old(self).y as int),
    {
        let in_hsync = self.x < self.t.h_sync;
        let v_sync_end = self.t.v_sync;
        let in_vsync = self.y < v_sync_end;
        let csync = if in_vsync {
            !in_hsync || (self.y == v_sync_end - 1 && self.x == 2)
        } else {
            in_hsync
        };
        let htot = self.t.htot();
        let vtot = self.t.vtot();
        self.x = self.x + 1;
        if self.x == htot {
            self.x = 0;
            self.y = self.y + 1;
            if self.y == vtot {
                self.y = 0;
            }
        }
        csync
    }
}

impl SyncGen {
    /// Tick `n` times and return the levels in order: level `k` is
    /// `level_after` the `k` ticks before it, from where the generator stood.
    pub fn run(&mut self, n: usize) -> (r: Vec<bool>)
        requires
            old(self).wf(),
        ensures
            final(self).wf(),
            final(self).t == old(self).t,
            r@.len() == n,
            forall|k: int|
                0 <= k < n ==> #[trigger] r@[k] == level_after(old(self).t, old(self).x as int, old(self).y as int, k),
            final(self).x == sim(old(self).t, old(self).x as int, old(self).y as int, false, n as nat).0,
            final(self).y == sim(old(self).t, old(self).x as int, old(self).y as int, false, n as nat).1,
    {
        let ghost t = self.t;
        let ghost x0 = self.x as int;
        let ghost y0 = self.y as int;
        let mut out: Vec<bool> = Vec::new();
        let mut i: usize = 0;
        while i < n
            invariant
                i <= n,
                self.wf(),
                self.t == t,
                out@.len() == i,
                self.x == sim(t, x0, y0, false, i as nat).0,
                self.y == sim(t, x0, y0, false, i as nat).1,
                forall|k: int| 0 <= k < i ==> #[trigger] out@[k] == level_after(t, x0, y0, k),
            decreases n - i,
        {
            proof {
                lemma_sim_split(t, x0, y0, false, i as nat, 1);
                let m = sim(t, x0, y0, false, i as nat);
                let r = sim(t, next_x(t, m.0), next_y(t, m.0, m.1), csync_level(t, m.0, m.1), 0);
                assert(r.0 == next_x(t, m.0) && r.1 == next_y(t, m.0, m.1));
                assert(sim(t, m.0, m.1, m.2, 1).0 == next_x(t, m.0));
                assert(sim(t, m.0, m.1, m.2, 1).1 == next_y(t, m.0, m.1));
            }
            let level = self.tick();
            out.push(level);
            i = i + 1;
        }
        out
    }
}

/// Run `n` ticks from raster position `(x, y)`, where `prev` is the level of
/// the tick before: the final position, the level of the last tick, and the
/// number of sync pulses seen (a high level followed by a low one).
pub open spec fn sim(t: Timing, x: int, y: int, prev: bool, n: nat) -> (int, int, bool, int)
    decreases n,
{
    if n == 0 {
        (x, y, prev, 0)
    } else {
        let l = csync_level(t, x, y);
        let r = sim(t, next_x(t, x), next_y(t, x, y), l, (n - 1) as nat);
        (r.0, r.1, r.2, r.3 + if prev && !l { 1int } else { 0 })
    }
}

/// Timings for which every line carries exactly one sync pulse: the
/// horizontal sync window covers x = 0..3 and there are at least two lines of
/// vertical sync.
pub open spec fn pulse_per_line(t: Timing) -> bool {
    &&& t.wf()
    &&& 4 <= t.h_sync
    &&& 2 <= t.v_sync
}

/// Pulses within line `y` at positions after `x`.
pub open spec fn pulses_after(t: Timing, y: int, x: int) -> int {
    if y >= t.v_sync {
        if x < t.h_sync { 1 } else { 0 }
    } else if y == t.v_sync - 1 {
        if x < 3 { 1 } else { 0 }
    } else {
        0
    }
}

/// The level at the end of line `y`: high inside vertical sync, low outside.
pub open spec fn line_end_level(t: Timing, y: int) -> bool {
    y < t.v_sync
}

pub open spec fn next_line(t: Timing, y: int) -> int {
    if y + 1 == t.spec_vtot() {
        0
    } else {
        y + 1
    }
}

proof fn lemma_sim_split(t: Timing, x: int, y: int, p: bool, a: nat, b: nat)
    ensures
        sim(t, x, y, p, a + b) == ({
            let m = sim(t, x, y, p, a);
            let r = sim(t, m.0, m.1, m.2, b);
            (r.0, r.1, r.2, m.3 + r.3)
        }),
    decreases a,
{
    if a > 0 {
        let l = csync_level(t, x, y);
        lemma_sim_split(t, next_x(t, x), next_y(t, x, y), l, (a - 1) as nat, b);
        assert((a + b) as nat - 1 == ((a - 1) + b) as nat);
    }
}

/// The rest of a line, from `x` on.
proof fn lemma_line(t: Timing, x: int, y: int, p: bool)
    requires
        pulse_per_line(t),
        0 <= x < t.spec_htot(),
        0 <= y < t.spec_vtot(),
    ensures
        sim(t, x, y, p, (t.spec_htot() - x) as nat) == (
            0int,
            next_line(t, y),
            line_end_level(t, y),
            (if p && !csync_level(t, x, y) { 1int } else { 0 }) + pulses_after(t, y, x),
        ),
    decreases t.spec_htot() - x,
{
    let l = csync_level(t, x, y);
    if x + 1 < t.spec_htot() {
        lemma_line(t, x + 1, y, l);
        assert((t.spec_htot() - x - 1) as nat == ((t.spec_htot() - x) as nat - 1) as nat);
        assert(pulses_after(t, y, x) == pulses_after(t, y, x + 1) + (if l && !csync_level(t, x + 1, y) {
            1int
        } else {
            0
        }));
    } else {
        assert(sim(t, next_x(t, x), next_y(t, x, y), l, 0) == (next_x(t, x), next_y(t, x, y), l, 0int));
    }
}

/// Pulses from the start of line `y` to the end of the frame, entering with
/// level `p`.
pub open spec fn pulses_to_frame_end(t: Timing, y: int, p: bool) -> int {
    (if y < t.v_sync && p { 1int } else { 0 }) + t.spec_vtot() - y
}

proof fn lemma_rest_of_frame(t: Timing, y: int, p: bool)
    requires
        pulse_per_line(t),
        0 <= y < t.spec_vtot(),
    ensures
        sim(t, 0, y, p, ((t.spec_vtot() - y) * t.spec_htot()) as nat) == (
            0int,
            0int,
            false,
            pulses_to_frame_end(t, y, p),
        ),
    decreases t.spec_vtot() - y,
{
    let h = t.spec_htot();
    let v = t.spec_vtot();
    lemma_line(t, 0, y, p);
    if y + 1 < v {
        let rest = ((v - y - 1) * h) as nat;
        assert((v - y) * h == h + (v - y - 1) * h) by (nonlinear_arith);
        assert(0 <= (v - y - 1) * h) by (nonlinear_arith)
            requires
                y + 1 < v,
                0 < h,
        ;
        lemma_sim_split(t, 0, y, p, h as nat, rest);
        lemma_rest_of_frame(t, y + 1, line_end_level(t, y));
        assert(((v - y) * h) as nat == (h as nat + rest) as nat);
    } else {
        assert((v - y) * h == h) by (nonlinear_arith)
            requires
                y + 1 == v,
        ;
    }
}

/// One frame of ticks from the top-left corner ends back there, having
/// produced one sync pulse per line.
pub proof fn lemma_frame(t: Timing)
    requires
        pulse_per_line(t),
    ensures
        sim(t, 0, 0, false, (t.spec_htot() * t.spec_vtot()) as nat) == (0int, 0int, false, t.spec_vtot()),
{
    lemma_rest_of_frame(t, 0, false);
    assert((t.spec_vtot() - 0) * t.spec_htot() == t.spec_htot() * t.spec_vtot()) by (nonlinear_arith);
}

/// Raster position `(x, y)` as a clock count from the top-left corner.
pub open spec fn lin(t: Timing, x: int, y: int) -> int {
    y * t.spec_htot() + x
}

/// The level of tick `k` (counting from 0) of a run from `(x0, y0)`: what
/// the `k + 1`-th call of `SyncGen::tick` returns (see `SyncGen::run`).
pub open spec fn level_after(t: Timing, x0: int, y0: int, k: int) -> bool {
    let s = sim(t, x0, y0, false, k as nat);
    csync_level(t, s.0, s.1)
}

proof fn lemma_next_lin(t: Timing, x: int, y: int)
    requires
        t.wf(),
        0 <= x < t.spec_htot(),
        0 <= y < t.spec_vtot(),
    ensures
        0 <= next_x(t, x) < t.spec_htot(),
        0 <= next_y(t, x, y) < t.spec_vtot(),
        lin(t, next_x(t, x), next_y(t, x, y)) == (lin(t, x, y) + 1) % (t.spec_htot() * t.spec_vtot()),
{
    let h = t.spec_htot();
    let v = t.spec_vtot();
    let n = h * v;
    assert(y * h + h <= n && 0 <= y * h && n > 0) by (nonlinear_arith)
        requires
            0 <= y < v,
            0 < h,
            n == h * v,
    ;
    if x + 1 < h {
        lemma_small_mod((y * h + x + 1) as nat, n as nat);
    } else if y + 1 < v {
        assert((y + 1) * h == y * h + h && y * h + h + h <= n) by (nonlinear_arith)
            requires
                y + 1 < v,
                0 < h,
                n == h * v,
        ;
        lemma_small_mod((y * h + x + 1) as nat, n as nat);
    } else {
        assert(y * h + h == n) by (nonlinear_arith)
            requires
                y + 1 == v,
                n == h * v,
        ;
        assert(n % n == 0) by (nonlinear_arith)
            requires
                n > 0,
        ;
        assert(next_x(t, x) == 0);
        assert(next_y(t, x, y) == 0);
        assert(0 * h == 0);
        assert(lin(t, 0, 0) == 0);
        assert(lin(t, x, y) + 1 == n);
    }
}

/// After `k` ticks the raster position is the one `k` clocks further on,
/// counted around the frame.
proof fn lemma_sim_pos(t: Timing, x0: int, y0: int, p: bool, k: nat)
    requires
        t.wf(),
        0 <= x0 < t.spec_htot(),
        0 <= y0 < t.spec_vtot(),
    ensures
        ({
            let s = sim(t, x0, y0, p, k);
            let l = (lin(t, x0, y0) + k) % (t.spec_htot() * t.spec_vtot());
            &&& s.0 == l % t.spec_htot()
            &&& s.1 == l / t.spec_htot()
        }),
    decreases k,
{
    let h = t.spec_htot();
    let v = t.spec_vtot();
    let n = h * v;
    let l0 = lin(t, x0, y0);
    assert(0 <= l0 < n) by (nonlinear_arith)
        requires
            l0 == y0 * h + x0,
            0 <= x0 < h,
            0 <= y0 < v,
            n == h * v,
    ;
    if k == 0 {
        lemma_small_mod(l0 as nat, n as nat);
        lemma_fundamental_div_mod_converse(l0, h, y0, x0);
    } else {
        let l = csync_level(t, x0, y0);
        lemma_next_lin(t, x0, y0);
        lemma_sim_pos(t, next_x(t, x0), next_y(t, x0, y0), l, (k - 1) as nat);
        let a = l0 + 1;
        let b = k - 1;
        lemma_add_mod_noop(a % n, b, n);
        lemma_add_mod_noop(a, b, n);
        lemma_small_mod((a % n) as nat, n as nat);
    }
}

/// The level at the raster position `l` clocks from the top-left corner.
pub open spec fn level_at(t: Timing, l: int) -> bool {
    csync_level(t, l % t.spec_htot(), l / t.spec_htot())
}

/// Timings whose runs of sync level let the firmware lock on: at least 15
/// clocks of line after the horizontal sync window, and at least two lines
/// after vertical sync.
pub open spec fn lockable(t: Timing) -> bool {
    &&& pulse_per_line(t)
    &&& t.h_sync + 15 <= t.spec_htot()
    &&& t.v_sync + 2 <= t.spec_vtot()
}

/// Where vertical sync ends (15 clocks high, then 15 low), and where it
/// starts (15 low, then 15 high).
proof fn lemma_boundaries(t: Timing, d: int)
    requires
        lockable(t),
        -15 <= d < 15,
    ensures
        ({
            let n = t.spec_htot() * t.spec_vtot();
            let b1 = t.v_sync * t.spec_htot() + t.h_sync;
            let b2 = t.h_sync as int;
            &&& level_at(t, (b1 + d) % n) == (d < 0)
            &&& level_at(t, (b2 + d) % n) == (d >= 0)
        }),
{
    let h = t.spec_htot();
    let v = t.spec_vtot();
    let n = h * v;
    let vs = t.v_sync as int;
    let hs = t.h_sync as int;
    let b1 = vs * h + hs;
    assert(2 * h <= vs * h && vs * h + h <= (v - 1) * h && (v - 1) * h + h == n) by (nonlinear_arith)
        requires
            2 <= vs,
            vs + 2 <= v,
            0 < h,
            n == h * v,
    ;
    lemma_small_mod((b1 + d) as nat, n as nat);
    if hs + d >= 0 {
        lemma_fundamental_div_mod_converse(b1 + d, h, vs, hs + d);
        lemma_small_mod((hs + d) as nat, n as nat);
        lemma_fundamental_div_mod_converse(hs + d, h, 0, hs + d);
    } else {
        assert(b1 + d == (vs - 1) * h + (h + hs + d)) by (nonlinear_arith)
            requires
                b1 == vs * h + hs,
        ;
        lemma_fundamental_div_mod_converse(b1 + d, h, vs - 1, h + hs + d);
        assert((hs + d) % n == n + hs + d) by {
            lemma_small_mod((n + hs + d) as nat, n as nat);
            assert(((n + hs + d) - n) % n == (n + hs + d) % n) by (nonlinear_arith)
                requires
                    n > 0,
            ;
        }
        assert(n + hs + d == (v - 1) * h + (h + hs + d));
        lemma_fundamental_div_mod_converse(n + hs + d, h, v - 1, h + hs + d);
    }
}

/// Ticks `i - 15 .. i` of a frame-long run from `(x0, y0)` are all high and
/// ticks `i .. i + 15` all low, or the other way round.
pub open spec fn lock_pattern_at(t: Timing, x0: int, y0: int, i: int) -> bool {
    &&& 15 <= i <= t.spec_htot() * t.spec_vtot() - 15
    &&& {
        ||| (forall|j: int| i - 15 <= j < i ==> level_after(t, x0, y0, j)) && (forall|j: int|
            i <= j < i + 15 ==> !level_after(t, x0, y0, j))
        ||| (forall|j: int| i - 15 <= j < i ==> !level_after(t, x0, y0, j)) && (forall|j: int|
            i <= j < i + 15 ==> level_after(t, x0, y0, j))
    }
}

/// Any frame's worth of ticks, from any raster position, holds a run of at
/// least 15 high ticks followed directly by at least 15 low ones, or 15 low
/// followed by 15 high: what the firmware's sync detector looks for.
pub proof fn lemma_syncable(t: Timing, x0: int, y0: int)
    requires
        lockable(t),
        0 <= x0 < t.spec_htot(),
        0 <= y0 < t.spec_vtot(),
    ensures
        exists|i: int| #[trigger] lock_pattern_at(t, x0, y0, i),
{
    let h = t.spec_htot();
    let v = t.spec_vtot();
    let n = h * v;
    let vs = t.v_sync as int;
    let hs = t.h_sync as int;
    let l0 = lin(t, x0, y0);
    let b1 = vs * h + hs;
    let b2 = hs;
    assert(30 <= vs * h <= n - 30 && 0 <= l0 < n) by (nonlinear_arith)
        requires
            2 <= vs,
            vs + 2 <= v,
            15 <= h,
            n == h * v,
            l0 == y0 * h + x0,
            0 <= x0 < h,
            0 <= y0 < v,
    ;
    let i1 = (b1 - l0) % n;
    let i2 = (b2 - l0) % n;
    // The two boundaries lie vs * h clocks apart around the frame, so the
    // window's ends cut at most one of them.
    assert(i2 == (i1 - vs * h) % n) by {
        lemma_add_mod_noop(b1 - l0, -(vs * h), n);
        lemma_small_mod(((-(vs * h)) + n) as nat, n as nat);
        assert((-(vs * h)) % n == n - vs * h) by (nonlinear_arith)
            requires
                30 <= vs * h <= n - 30,
        ;
        lemma_small_mod(i1 as nat, n as nat);
        lemma_add_mod_noop(i1, -(vs * h), n);
    }
    let use_b1 = 15 <= i1 <= n - 15;
    let i = if use_b1 { i1 } else { i2 };
    let b = if use_b1 { b1 } else { b2 };
    assert(15 <= i <= n - 15) by {
        if !use_b1 {
            if i1 < 15 {
                assert((i1 - vs * h) % n == i1 - vs * h + n) by (nonlinear_arith)
                    requires
                        0 <= i1 < 15,
                        30 <= vs * h <= n - 30,
                ;
            } else {
                assert((i1 - vs * h) % n == i1 - vs * h) by (nonlinear_arith)
                    requires
                        n - 15 < i1 < n,
                        30 <= vs * h <= n - 30,
                ;
            }
        }
    }
    assert forall|j: int| i - 15 <= j < i + 15 implies level_after(t, x0, y0, j) == (if use_b1 {
        j < i
    } else {
        j >= i
    }) by {
        lemma_sim_pos(t, x0, y0, false, j as nat);
        let d = j - i;
        lemma_boundaries(t, d);
        assert((l0 + j) % n == (b + d) % n) by {
            lemma_add_mod_noop(b - l0, l0 + d, n);
            lemma_add_mod_noop(b - l0, 0, n);
            lemma_small_mod(((l0 + d) % n) as nat, n as nat);
            assert(l0 + j == (b - l0) % n + l0 + d);
            lemma_add_mod_noop((b - l0) % n, l0 + d, n);
            lemma_small_mod(((b - l0) % n) as nat, n as nat);
        }
    }
    assert(lock_pattern_at(t, x0, y0, i));
}

} // verus!
