//! Classification of an accumulated swipe into a discrete direction.
//!
//! Deltas are fixed-point integers: [`SWIPE_DIST_SCALE`] units stand for one
//! device-distance unit, so sub-unit motion reported by the device survives
//! accumulation. A swipe must travel [`SWIPE_DIST_THRESHOLD`] on an axis to
//! count at all, and when both axes pass the threshold the dominant axis
//! must beat the other by more than the diagonal tie band, an angle of
//! 22.5 degrees. The tie-band comparison `|dx|/|dy| > |dy|/|dx| + tan(22.5°)`
//! is evaluated exactly: with `r = tan(22.5°) = sqrt(2) - 1` and positive
//! magnitudes `a`, `b`, the comparison `a/b > b/a + r` multiplies out to
//! `a*a - b*b + a*b > sqrt(2)*a*b`, which holds if and only if the left side
//! is positive and its square exceeds `2*(a*b)^2` — integer arithmetic only,
//! with no rounding anywhere.

use vstd::prelude::*;

use crate::commands::InputCommand;

verus! {

/// Fixed-point scale: this many delta units are one device-distance unit.
pub const SWIPE_DIST_SCALE: i64 = 1000;

/// An axis must accumulate at least this distance for a swipe to register.
pub const SWIPE_DIST_THRESHOLD: i64 = 100 * SWIPE_DIST_SCALE;

/// Accumulated deltas are clamped to this magnitude so that the exact
/// tie-band arithmetic, degree four in the inputs, stays inside `i128`.
pub const SWIPE_DELTA_LIMIT: i64 = 1_000_000_000;

/// The four directions a completed swipe can classify to.
#[derive(Clone, Copy, Debug, Eq, PartialEq, Structural)]
pub enum SwaypedSwipeDir {
    Up,
    Down,
    Left,
    Right,
}

impl SwaypedSwipeDir {
    /// The name of the direction, as logged when a swipe is detected.
    pub open spec fn spec_display(self) -> Seq<char> {
        match self {
            SwaypedSwipeDir::Up => "UP"@,
            SwaypedSwipeDir::Down => "DOWN"@,
            SwaypedSwipeDir::Left => "LEFT"@,
            SwaypedSwipeDir::Right => "RIGHT"@,
        }
    }

    /// Renders the direction name for logging.
    pub fn display(&self) -> (r: String)
        ensures
            r@ == self.spec_display(),
    {
        match self {
            SwaypedSwipeDir::Up => "UP".to_owned(),
            SwaypedSwipeDir::Down => "DOWN".to_owned(),
            SwaypedSwipeDir::Left => "LEFT".to_owned(),
            SwaypedSwipeDir::Right => "RIGHT".to_owned(),
        }
    }
}

/// Whether the axis with magnitude `a` dominates the axis with magnitude
/// `b` by more than the diagonal tie band: `a/b > b/a + tan(22.5°)`,
/// multiplied out into exact integer arithmetic (see the module doc).
/// Meaningful for positive `a` and `b`.
pub open spec fn spec_axis_dominates(a: int, b: int) -> bool {
    let d = a * a - b * b + a * b;
    d > 0 && d * d > 2 * ((a * b) * (a * b))
}

/// The direction an accumulated swipe of totals `(dx, dy)` classifies to,
/// or `None` when the motion stayed under the threshold or fell inside the
/// diagonal tie band.
pub open spec fn spec_classify(dx: int, dy: int) -> Option<SwaypedSwipeDir> {
    let ax = vstd::math::abs(dx) as int;
    let ay = vstd::math::abs(dy) as int;
    if ax >= SWIPE_DIST_THRESHOLD && ay >= SWIPE_DIST_THRESHOLD {
        if spec_axis_dominates(ax, ay) {
            Some(if dx > 0 { SwaypedSwipeDir::Right } else { SwaypedSwipeDir::Left })
        } else if spec_axis_dominates(ay, ax) {
            Some(if dy > 0 { SwaypedSwipeDir::Down } else { SwaypedSwipeDir::Up })
        } else {
            None
        }
    } else if ax > SWIPE_DIST_THRESHOLD {
        Some(if dx > 0 { SwaypedSwipeDir::Right } else { SwaypedSwipeDir::Left })
    } else if ay > SWIPE_DIST_THRESHOLD {
        Some(if dy > 0 { SwaypedSwipeDir::Down } else { SwaypedSwipeDir::Up })
    } else {
        None
    }
}

/// Exact integer evaluation of the tie-band comparison.
fn axis_dominates(a: i64, b: i64) -> (r: bool)
    requires
        0 <= a <= SWIPE_DELTA_LIMIT,
        0 <= b <= SWIPE_DELTA_LIMIT,
    ensures
        r == spec_axis_dominates(a as int, b as int),
{
    let ai: i128 = a as i128;
    let bi: i128 = b as i128;
    proof {
        assert(0 <= ai * ai <= 1000000000000000000 && 0 <= bi * bi <= 1000000000000000000
            && 0 <= ai * bi <= 1000000000000000000) by (nonlinear_arith)
            requires
                0 <= ai <= 1000000000,
                0 <= bi <= 1000000000,
        ;
    }
    let d: i128 = ai * ai - bi * bi + ai * bi;
    let p: i128 = ai * bi;
    proof {
        assert(0 <= d * d <= 4000000000000000000000000000000000000) by (nonlinear_arith)
            requires
                -2000000000000000000 <= d <= 2000000000000000000,
        ;
        assert(0 <= p * p <= 1000000000000000000000000000000000000) by (nonlinear_arith)
            requires
                0 <= p <= 1000000000000000000,
        ;
    }
    d > 0 && d * d > 2 * (p * p)
}

/// Classifies accumulated swipe totals into a direction, or nothing.
pub fn classify_swipe(dx: i64, dy: i64) -> (r: Option<SwaypedSwipeDir>)
    requires
        -SWIPE_DELTA_LIMIT <= dx <= SWIPE_DELTA_LIMIT,
        -SWIPE_DELTA_LIMIT <= dy <= SWIPE_DELTA_LIMIT,
    ensures
        r == spec_classify(dx as int, dy as int),
{
    let ax: i64 = if dx < 0 { -dx } else { dx };
    let ay: i64 = if dy < 0 { -dy } else { dy };
    if ax >= SWIPE_DIST_THRESHOLD && ay >= SWIPE_DIST_THRESHOLD {
        if axis_dominates(ax, ay) {
            Some(if dx > 0 { SwaypedSwipeDir::Right } else { SwaypedSwipeDir::Left })
        } else if axis_dominates(ay, ax) {
            Some(if dy > 0 { SwaypedSwipeDir::Down } else { SwaypedSwipeDir::Up })
        } else {
            None
        }
    } else if ax > SWIPE_DIST_THRESHOLD {
        Some(if dx > 0 { SwaypedSwipeDir::Right } else { SwaypedSwipeDir::Left })
    } else if ay > SWIPE_DIST_THRESHOLD {
        Some(if dy > 0 { SwaypedSwipeDir::Down } else { SwaypedSwipeDir::Up })
    } else {
        None
    }
}

/// The input event a detected swipe direction turns into, carrying the
/// finger count observed while the gesture was in progress.
pub open spec fn spec_swipe_command(dir: SwaypedSwipeDir, finger_count: i32) -> InputCommand {
    match dir {
        SwaypedSwipeDir::Up => InputCommand::SwipeUp(finger_count),
        SwaypedSwipeDir::Down => InputCommand::SwipeDown(finger_count),
        SwaypedSwipeDir::Left => InputCommand::SwipeLeft(finger_count),
        SwaypedSwipeDir::Right => InputCommand::SwipeRight(finger_count),
    }
}

/// The event emitted for a classification outcome: one swipe event when a
/// direction was found, nothing when the gesture was discarded.
pub open spec fn spec_swipe_detected(o: Option<SwaypedSwipeDir>, finger_count: i32) -> Option<
    InputCommand,
> {
    match o {
        Some(dir) => Some(spec_swipe_command(dir, finger_count)),
        None => None,
    }
}

/// Turns a classification outcome into the event to emit, if any.
pub fn swipe_detected(o: Option<SwaypedSwipeDir>, finger_count: i32) -> (r: Option<InputCommand>)
    ensures
        r == spec_swipe_detected(o, finger_count),
{
    match o {
        Some(SwaypedSwipeDir::Up) => Some(InputCommand::SwipeUp(finger_count)),
        Some(SwaypedSwipeDir::Down) => Some(InputCommand::SwipeDown(finger_count)),
        Some(SwaypedSwipeDir::Left) => Some(InputCommand::SwipeLeft(finger_count)),
        Some(SwaypedSwipeDir::Right) => Some(InputCommand::SwipeRight(finger_count)),
        None => None,
    }
}

/// Converts accumulated swipe totals straight to the event to emit:
/// classification followed by [`swipe_detected`].
pub fn swipe_process(dx: i64, dy: i64, finger_count: i32) -> (r: Option<InputCommand>)
    requires
        -SWIPE_DELTA_LIMIT <= dx <= SWIPE_DELTA_LIMIT,
        -SWIPE_DELTA_LIMIT <= dy <= SWIPE_DELTA_LIMIT,
    ensures
        r == spec_swipe_detected(spec_classify(dx as int, dy as int), finger_count),
{
    let swipe = classify_swipe(dx, dy);
    swipe_detected(swipe, finger_count)
}

/// Motion under the threshold on both axes is noise: the classifier yields
/// no direction, whatever the signs of the deltas.
pub proof fn lemma_noise_yields_no_direction(dx: int, dy: int)
    requires
        vstd::math::abs(dx) < SWIPE_DIST_THRESHOLD,
        vstd::math::abs(dy) < SWIPE_DIST_THRESHOLD,
    ensures
        spec_classify(dx, dy) is None,
{
}

/// A swipe strictly past the threshold on the horizontal axis while the
/// vertical axis stayed at zero classifies horizontally, by sign: right
/// for positive, left for negative.
pub proof fn lemma_horizontal_swipe(dx: int, dy: int)
    requires
        vstd::math::abs(dx) > SWIPE_DIST_THRESHOLD,
        dy == 0,
    ensures
        spec_classify(dx, dy) == Some(
            if dx > 0 {
                SwaypedSwipeDir::Right
            } else {
                SwaypedSwipeDir::Left
            },
        ),
{
}

/// The vertical twin of [`lemma_horizontal_swipe`]: down for positive,
/// up for negative.
pub proof fn lemma_vertical_swipe(dx: int, dy: int)
    requires
        vstd::math::abs(dy) > SWIPE_DIST_THRESHOLD,
        dx == 0,
    ensures
        spec_classify(dx, dy) == Some(
            if dy > 0 {
                SwaypedSwipeDir::Down
            } else {
                SwaypedSwipeDir::Up
            },
        ),
{
}

/// Two axes of equal magnitude past the threshold lie on the diagonal,
/// inside the tie band: no direction is emitted.
pub proof fn lemma_equal_magnitudes_tie(dx: int, dy: int)
    requires
        vstd::math::abs(dx) == vstd::math::abs(dy),
        vstd::math::abs(dx) >= SWIPE_DIST_THRESHOLD,
    ensures
        spec_classify(dx, dy) is None,
{
    let a = vstd::math::abs(dx) as int;
    assert(a * a > 0) by (nonlinear_arith)
        requires
            a > 0,
    ;
    assert((a * a) * (a * a) >= 0) by (nonlinear_arith);
    assert(!spec_axis_dominates(a, a));
}

} // verus!

