//! Fixed-point units, screen geometry and the shared arithmetic of one
//! movement step.
//!
//! A pixel is `SCALE` position units, a full turn is `TAU_UNITS` angle units,
//! and a sine or cosine sample is scaled by `TRIG_ONE` (so it always lies in
//! `[-TRIG_ONE, TRIG_ONE]`).

use vstd::arithmetic::div_mod::{lemma_div_is_ordered, lemma_div_multiples_vanish,
    lemma_div_pos_is_pos};
use vstd::prelude::*;

verus! {

/// Position units per pixel.
pub const SCALE: i64 = 1000;

/// Angle units in a full turn.
pub const TAU_UNITS: i64 = 16000;

/// Angle units in half a turn.
pub const PI_UNITS: i64 = 8000;

/// Angle units in a quarter turn.
pub const HALF_PI_UNITS: i64 = 4000;

/// One steering step: an eighth of half a turn.
pub const TURNING_STEP: i64 = 1000;

/// Scale of the sine and cosine samples handed in by the caller.
pub const TRIG_ONE: i64 = 1000;

/// Width of the playing field, in position units (1280 pixels).
pub const MAX_X: i64 = 1280000;

/// Height of the playing field, in position units (720 pixels).
pub const MAX_Y: i64 = 720000;

/// How far past zero a coordinate may drift before it wraps (one 32-pixel
/// sprite).
pub const WRAP_PAD: i64 = 32000;

/// Margin past the screen edge within which a bullet still counts as visible
/// (10 pixels).
pub const SCREEN_MARGIN: i64 = 10000;

/// Margin past the screen edge within which an asteroid still counts as
/// visible (50 pixels).
pub const ASTROID_MARGIN: i64 = 50000;

/// Hard bound on any entity coordinate; all game arithmetic stays far inside
/// `i64` as long as coordinates respect it.
pub const COORD_LIMIT: i64 = 2000000;

/// Bound on the coordinates of an entity that is at rest between ticks (on
/// screen, or freshly spawned); one movement step from inside it stays within
/// `COORD_LIMIT`.
pub const NEAR_LIMIT: i64 = 1400000;

/// Largest speed any entity moves at, in position units per tick (10 pixels).
pub const BULLET_SPEED: i64 = 10000;

/// A coordinate within the hard arena bound.
pub open spec fn coord_bounded(v: int) -> bool {
    -COORD_LIMIT <= v <= COORD_LIMIT
}

/// A coordinate close enough to the screen that one movement step keeps it
/// within the arena bound.
pub open spec fn coord_near_screen(v: int) -> bool {
    -NEAR_LIMIT <= v <= NEAR_LIMIT
}

/// A well-scaled sine or cosine sample.
pub open spec fn trig_ok(t: int) -> bool {
    -TRIG_ONE <= t <= TRIG_ONE
}

/// An angle in canonical form: at least zero and strictly below a full turn.
pub open spec fn angle_ok(a: int) -> bool {
    0 <= a < TAU_UNITS
}

/// One sine/cosine sample of an entity's heading, taken at `TRIG_ONE` scale.
#[derive(Clone, Copy)]
pub struct TrigPair {
    pub sin: i64,
    pub cos: i64,
}

impl TrigPair {
    /// Both samples are well scaled.
    pub open spec fn wf(self) -> bool {
        trig_ok(self.sin as int) && trig_ok(self.cos as int)
    }
}

/// How far an entity moving at `speed` advances along an axis whose heading
/// sample is `trig`: the product, brought back to position units. The division
/// always acts on a non-negative value, so it truncates toward zero on both
/// sides.
pub open spec fn scaled_step(speed: int, trig: int) -> int {
    if trig >= 0 {
        (speed * trig) / (TRIG_ONE as int)
    } else {
        -((speed * -trig) / (TRIG_ONE as int))
    }
}

/// A movement step never advances farther than the full speed.
pub proof fn lemma_scaled_step_bounds(speed: int, trig: int)
    requires
        0 <= speed,
        trig_ok(trig),
    ensures
        -speed <= scaled_step(speed, trig) <= speed,
{
    let t = if trig >= 0 { trig } else { -trig };
    let p = speed * t;
    assert(p <= speed * (TRIG_ONE as int)) by {
        lemma_mul_inequality_local(t, TRIG_ONE as int, speed);
    }
    assert(0 <= p) by {
        lemma_mul_nonneg_local(speed, t);
    }
    lemma_div_pos_is_pos(p, TRIG_ONE as int);
    lemma_div_is_ordered(p, speed * (TRIG_ONE as int), TRIG_ONE as int);
    lemma_div_multiples_vanish(speed, TRIG_ONE as int);
    assert(speed * (TRIG_ONE as int) == (TRIG_ONE as int) * speed);
}

/// The product of values that are not negative is not negative.
proof fn lemma_mul_nonneg_local(x: int, y: int)
    requires
        0 <= x,
        0 <= y,
    ensures
        0 <= x * y,
{
    assert(0 <= x * y) by (nonlinear_arith)
        requires
            0 <= x,
            0 <= y,
    ;
}

/// Multiplying both sides of `x <= y` by a non-negative `z` keeps the order.
proof fn lemma_mul_inequality_local(x: int, y: int, z: int)
    requires
        x <= y,
        0 <= z,
    ensures
        x * z <= y * z,
{
    assert(x * z <= y * z) by (nonlinear_arith)
        requires
            x <= y,
            0 <= z,
    ;
}

/// Executable form of `scaled_step`, bounded by the speed.
pub fn step_amount(speed: i64, trig: i64) -> (r: i64)
    requires
        0 <= speed <= BULLET_SPEED,
        trig_ok(trig as int),
    ensures
        r == scaled_step(speed as int, trig as int),
        -speed <= r <= speed,
{
    proof {
        lemma_scaled_step_bounds(speed as int, trig as int);
    }
    if trig >= 0 {
        (speed * trig) / TRIG_ONE
    } else {
        -((speed * (-trig)) / TRIG_ONE)
    }
}

/// Where a coordinate ends up after the screen wrap: a coordinate that
/// reaches `max` comes back down by `max`, and one that falls below the pad
/// comes back up by `max` plus the pad.
pub open spec fn wrap_coord(v: int, max: int) -> int {
    if v >= max {
        v - max
    } else if v < -WRAP_PAD {
        v + max + WRAP_PAD
    } else {
        v
    }
}

/// Wrapping is exact at the boundaries: a coordinate that lands exactly on
/// the maximum comes back as zero, and one just below the pad lands just
/// inside the far edge.
pub proof fn lemma_wrap_exact_at_boundary(max: int)
    requires
        max > WRAP_PAD,
    ensures
        wrap_coord(max, max) == 0,
        wrap_coord(-(WRAP_PAD as int) - 1, max) == max - 1,
{
}

/// Whether a point is within the bullet margin of the visible screen.
pub open spec fn spec_on_screen(x: int, y: int) -> bool {
    !(x < -SCREEN_MARGIN || x > MAX_X + SCREEN_MARGIN || y < -SCREEN_MARGIN || y > MAX_Y
        + SCREEN_MARGIN)
}

/// Whether a point is within the asteroid margin of the visible screen.
pub open spec fn spec_astroid_on_screen(x: int, y: int) -> bool {
    !(x < -ASTROID_MARGIN || x > MAX_X + ASTROID_MARGIN || y < -ASTROID_MARGIN || y > MAX_Y
        + ASTROID_MARGIN)
}

/// Executable visibility test at the bullet margin.
pub fn is_on_screen(x: i64, y: i64) -> (r: bool)
    ensures
        r == spec_on_screen(x as int, y as int),
{
    !(x < -SCREEN_MARGIN || x > MAX_X + SCREEN_MARGIN || y < -SCREEN_MARGIN || y > MAX_Y
        + SCREEN_MARGIN)
}

} // verus!
