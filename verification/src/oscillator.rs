//! The ping-pong linear-interpolation oscillator.

use vstd::prelude::*;

use vstd::arithmetic::div_mod::lemma_div_multiples_vanish;
use vstd::arithmetic::mul::lemma_mul_inequality;
use vstd::arithmetic::mul::lemma_mul_is_distributive_add_other_way;

use crate::scaled::COORD_LIMIT;
use crate::scaled::PROD_LIMIT;
use crate::scaled::SCALE;
use crate::scaled::div_by_scale;
use crate::vec3::Vec3;

verus! {

/// The progress value after one tick: the step is always added first, and
/// only then is the boundary examined.
pub open spec fn next_progress(p: int, s: int) -> int {
    p + s
}

/// A tick reverses direction exactly when the advanced progress has left
/// `[0, SCALE]` in the direction of travel: above `SCALE` while moving
/// forward, or below `0` while moving backward.
pub open spec fn reverses(p: int, s: int) -> bool {
    (p + s > SCALE && s > 0) || (p + s < 0 && s < 0)
}

/// The step value after one tick: negated on a reversal, unchanged otherwise.
pub open spec fn next_step(p: int, s: int) -> int {
    if reverses(p, s) {
        -s
    } else {
        s
    }
}

/// The progress/step states the oscillator moves through.  The step magnitude
/// never exceeds `SCALE`, and the progress has overshot `[0, SCALE]` only on
/// the side just swept past, by less than the step magnitude.
pub open spec fn state_ok(p: int, s: int) -> bool {
    &&& -SCALE <= s <= SCALE
    &&& (s >= 0 ==> -s <= p <= SCALE)
    &&& (s <= 0 ==> 0 <= p <= SCALE - s)
}

/// Fixed-point linear interpolation along one axis: the point a fraction
/// `t / SCALE` of the way from `a` to `b`, rounded toward negative infinity.
pub open spec fn lerp_axis(a: int, b: int, t: int) -> int {
    a + (t * (b - a)) / (SCALE as int)
}

/// A ping-pong (reflecting) linear-interpolation oscillator.
///
/// `progress` measures how far along the segment from `start` to `end` the
/// oscillator currently is, in units of `1 / SCALE`; `step` is added to it on
/// every tick, its sign giving the direction of travel and its magnitude the
/// speed.  When an update pushes `progress` past an end of `[0, SCALE]` in
/// the direction of travel, the step's sign flips, so the motion sweeps back
/// and forth forever and is never clamped.  The boundary is examined only
/// after the step is added, so `progress` may overshoot an end by less than
/// one step magnitude before the reversal takes hold.
#[derive(Clone, Copy, Debug, PartialEq, Eq, Structural)]
pub struct Oscillator {
    pub start: Vec3,
    pub end: Vec3,
    pub progress: i64,
    pub step: i64,
}

impl Oscillator {
    /// Well-formed oscillators keep their endpoints within `COORD_LIMIT` and
    /// their progress/step pair within the reachable states.
    pub open spec fn wf(self) -> bool {
        &&& self.start.in_range()
        &&& self.end.in_range()
        &&& state_ok(self.progress as int, self.step as int)
    }

    /// Builds an oscillator over the segment from `start` to `end`, beginning
    /// at the given progress with the given signed step.
    pub fn new(start: Vec3, end: Vec3, progress: i64, step: i64) -> (o: Oscillator)
        requires
            start.in_range(),
            end.in_range(),
            0 <= progress <= SCALE,
            -SCALE <= step <= SCALE,
        ensures
            o.start == start,
            o.end == end,
            o.progress == progress,
            o.step == step,
            o.wf(),
    {
        Oscillator { start, end, progress, step }
    }

    /// One tick: adds the step to the progress, then flips the step's sign if
    /// the new progress has left `[0, SCALE]` in the direction of travel.
    pub fn update(&mut self)
        requires
            old(self).wf(),
        ensures
            final(self).wf(),
            final(self).start == old(self).start,
            final(self).end == old(self).end,
            final(self).progress == next_progress(
                old(self).progress as int,
                old(self).step as int,
            ),
            final(self).step == next_step(old(self).progress as int, old(self).step as int),
    {
        self.progress = self.progress + self.step;
        if (self.progress > SCALE && self.step > 0) || (self.progress < 0 && self.step < 0) {
            self.step = -self.step;
        }
    }

    /// The interpolated position `start + (progress / SCALE) * (end - start)`,
    /// computed axis by axis in fixed point.  At progress `0` this is exactly
    /// `start`; at progress `SCALE`, exactly `end`; outside `[0, SCALE]` it
    /// overshoots the segment proportionally.
    pub fn current_position(&self) -> (r: Vec3)
        requires
            self.wf(),
        ensures
            r.x == lerp_axis(self.start.x as int, self.end.x as int, self.progress as int),
            r.y == lerp_axis(self.start.y as int, self.end.y as int, self.progress as int),
            r.z == lerp_axis(self.start.z as int, self.end.z as int, self.progress as int),
    {
        Vec3 {
            x: axis_position(self.start.x, self.end.x, self.progress),
            y: axis_position(self.start.y, self.end.y, self.progress),
            z: axis_position(self.start.z, self.end.z, self.progress),
        }
    }
}

/// The step magnitude: the oscillator's speed, unchanged by reversals.
pub open spec fn magnitude(s: int) -> int {
    if s >= 0 {
        s
    } else {
        -s
    }
}

/// The progress/step state after `n` ticks starting from `(p, s)`.  One tick
/// of this spec-level relation is exactly what `Oscillator::update` promises
/// of its progress and step fields.
pub open spec fn tick_n(p: int, s: int, n: nat) -> (int, int)
    decreases n,
{
    if n == 0 {
        (p, s)
    } else {
        let (q, t) = tick_n(p, s, (n - 1) as nat);
        (next_progress(q, t), next_step(q, t))
    }
}

/// One tick keeps the state reachable and at most negates the step.
pub proof fn lemma_tick_preserves_state_ok(p: int, s: int)
    requires
        state_ok(p, s),
    ensures
        state_ok(next_progress(p, s), next_step(p, s)),
        next_step(p, s) == s || next_step(p, s) == -s,
{
}

/// However many updates are applied, the progress never strays more than one
/// step magnitude outside `[0, SCALE]`, and the step keeps its magnitude.
pub proof fn lemma_progress_always_bounded(p: int, s: int, n: nat)
    requires
        state_ok(p, s),
    ensures
        state_ok(tick_n(p, s, n).0, tick_n(p, s, n).1),
        tick_n(p, s, n).1 == s || tick_n(p, s, n).1 == -s,
        -magnitude(s) <= tick_n(p, s, n).0 <= SCALE + magnitude(s),
    decreases n,
{
    if n > 0 {
        lemma_progress_always_bounded(p, s, (n - 1) as nat);
        lemma_tick_preserves_state_ok(tick_n(p, s, (n - 1) as nat).0, tick_n(p, s, (n - 1) as nat).1);
    }
}

/// Direction reversal is exact: an update that carries the progress past an
/// end of `[0, SCALE]` in the direction of travel negates the step, so the
/// very next update travels the other way; any other update leaves the step
/// untouched.
pub proof fn lemma_reversal_exact(p: int, s: int)
    ensures
        s > 0 && p + s > SCALE ==> next_step(p, s) == -s,
        s < 0 && p + s < 0 ==> next_step(p, s) == -s,
        !reverses(p, s) ==> next_step(p, s) == s,
{
}

/// At progress `0` the interpolated position is exactly the segment's start.
pub proof fn lemma_position_at_zero(a: int, b: int)
    ensures
        lerp_axis(a, b, 0) == a,
{
}

/// At progress `SCALE` the interpolated position is exactly the segment's
/// end.
pub proof fn lemma_position_at_full(a: int, b: int)
    ensures
        lerp_axis(a, b, SCALE as int) == b,
{
    lemma_div_multiples_vanish(b - a, SCALE as int);
}

/// A degenerate segment whose ends coincide interpolates to that one point
/// whatever the progress.
pub proof fn lemma_degenerate_constant(a: int, t: int)
    ensures
        lerp_axis(a, a, t) == a,
{
}

/// Climbing phase: starting from progress `0` with positive step `s` where
/// `k * s == SCALE`, the first `k` ticks move forward without reversing.
proof fn lemma_phase_up(s: int, k: int, i: int)
    requires
        0 < s,
        k * s == SCALE,
        0 <= i <= k,
    ensures
        tick_n(0, s, i as nat) == (i * s, s),
    decreases i,
{
    if i == 0 {
    } else {
        lemma_phase_up(s, k, i - 1);
        lemma_mul_is_distributive_add_other_way(s, i - 1, 1);
        lemma_mul_inequality(i, k, s);
    }
}

/// Descending phase: after the reversal at the far end, the next `k + 1`
/// ticks move backward without reversing.
proof fn lemma_phase_down(s: int, k: int, j: int)
    requires
        0 < s,
        k * s == SCALE,
        0 <= j <= k + 1,
    ensures
        tick_n(0, s, (k + 1 + j) as nat) == (SCALE + s - j * s, -s),
    decreases j,
{
    if j == 0 {
        lemma_phase_up(s, k, k);
    } else {
        lemma_phase_down(s, k, j - 1);
        lemma_mul_is_distributive_add_other_way(s, j - 1, 1);
        lemma_mul_inequality(j - 1, k, s);
    }
}

/// The motion is periodic: from progress `0` with positive step `s` that
/// divides `SCALE` evenly (`k * s == SCALE`), the oscillator returns to
/// exactly its initial progress and step after `2 * k + 4` ticks — `k` ticks
/// forward, one overshooting tick that reverses, `k + 1` ticks back, one
/// undershooting tick that reverses again, and one tick to re-enter at `0`.
pub proof fn lemma_periodic(s: int, k: int)
    requires
        0 < s,
        k * s == SCALE,
    ensures
        tick_n(0, s, (2 * k + 4) as nat) == (0int, s),
{
    if k <= 0 {
        lemma_mul_inequality(k, 0, s);
    }
    assert(k >= 1);
    lemma_phase_down(s, k, k + 1);
    lemma_mul_is_distributive_add_other_way(s, k, 1);
    assert(tick_n(0, s, (2 * k + 2) as nat) == (0int, -s));
    assert(tick_n(0, s, (2 * k + 3) as nat) == (-s, s));
    assert(tick_n(0, s, (2 * k + 4) as nat) == (0int, s));
}

/// Interpolation along a single axis, used by `current_position` once per
/// coordinate.
fn axis_position(a: i64, b: i64, t: i64) -> (r: i64)
    requires
        -COORD_LIMIT <= a <= COORD_LIMIT,
        -COORD_LIMIT <= b <= COORD_LIMIT,
        -SCALE <= t <= 2 * SCALE,
    ensures
        r == lerp_axis(a as int, b as int, t as int),
{
    let d: i64 = b - a;
    proof {
        assert(-PROD_LIMIT <= t * d <= PROD_LIMIT) by (nonlinear_arith)
            requires
                -2_000_000 <= t <= 2_000_000,
                -2_000_000_000_000 <= d <= 2_000_000_000_000,
                PROD_LIMIT == 4_000_000_000_000_000_000,
        ;
    }
    let p: i64 = t * d;
    let q: i64 = div_by_scale(p);
    a + q
}

} // verus!

