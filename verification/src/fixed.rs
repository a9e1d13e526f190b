//! Fixed-point 2D vectors and the movement step arithmetic.
//!
//! Positions and directions are held in `i64` coordinates scaled by
//! `FX_ONE`: a coordinate of `1_000_000` means one world unit. Directions
//! are unit vectors in this scale; a diagonal component is `FX_DIAG`, the
//! fixed-point rounding of `1/sqrt(2)` chosen as a multiple of
//! `MS_PER_SEC / SPEED` so that a movement step over a whole number of
//! milliseconds is exact.

use vstd::prelude::*;

verus! {

/// Fixed-point scale: this many coordinate ticks make one world unit.
pub const FX_ONE: i64 = 1_000_000;

/// Fixed-point `1/sqrt(2)`, rounded down to a multiple of 5 so that
/// `FX_DIAG * SPEED / MS_PER_SEC` is an exact integer.
pub const FX_DIAG: i64 = 707_105;

/// Movement speed, in world units per second.
pub const SPEED: u64 = 200;

/// Milliseconds in a second, the time scale of a movement step.
pub const MS_PER_SEC: u64 = 1000;

/// A 2D vector in fixed-point world coordinates.
#[derive(Clone, Copy, PartialEq, Eq, Structural, Debug)]
pub struct Vec2Fx {
    pub x: i64,
    pub y: i64,
}

impl Vec2Fx {
    /// The origin, where new players spawn.
    pub fn zero() -> (r: Vec2Fx)
        ensures
            r == (Vec2Fx { x: 0, y: 0 }),
    {
        Vec2Fx { x: 0, y: 0 }
    }
}

/// How far one direction component `d` moves a coordinate over `ms`
/// milliseconds: `d` scaled by `SPEED` world units per second. For the unit
/// direction components (multiples of 5) the division is exact.
pub open spec fn move_delta(d: int, ms: int) -> int {
    d * (SPEED as int) / (MS_PER_SEC as int) * ms
}

/// Law: for direction components that are multiples of `MS_PER_SEC / SPEED`
/// (all unit direction components are), the movement step is exactly
/// `direction * elapsed * SPEED / MS_PER_SEC`, stated here division-free.
pub proof fn lemma_move_delta_formula(d: int, ms: int)
    requires
        d % 5 == 0,
    ensures
        move_delta(d, ms) * (MS_PER_SEC as int) == d * ms * (SPEED as int),
{
    let q = d / 5;
    assert(d == 5 * q) by {
        vstd::arithmetic::div_mod::lemma_fundamental_div_mod(d, 5);
    }
    assert(d * 200 == 1000 * q) by (nonlinear_arith)
        requires
            d == 5 * q,
    ;
    assert(d * 200 / 1000 == q) by {
        vstd::arithmetic::div_mod::lemma_div_multiples_vanish(q, 1000);
    }
    assert(q * ms * 1000 == d * ms * 200) by (nonlinear_arith)
        requires
            d * 200 == 1000 * q,
    ;
}

/// Addition that saturates at the `i64` range instead of overflowing.
pub open spec fn sat_add(a: int, b: int) -> int {
    if a + b > i64::MAX as int {
        i64::MAX as int
    } else if a + b < i64::MIN as int {
        i64::MIN as int
    } else {
        a + b
    }
}

/// Saturating `i64` addition; exact whenever the sum fits in `i64`.
pub fn add_sat(a: i64, b: i64) -> (r: i64)
    ensures
        r as int == sat_add(a as int, b as int),
{
    if b >= 0 {
        if a > i64::MAX - b {
            i64::MAX
        } else {
            a + b
        }
    } else {
        if a < i64::MIN - b {
            i64::MIN
        } else {
            a + b
        }
    }
}

/// True of the values a single coordinate of a unit direction can take.
pub open spec fn unit_component(d: int) -> bool {
    d == 0 || d == FX_ONE as int || d == -(FX_ONE as int) || d == FX_DIAG as int || d == -(
    FX_DIAG as int)
}

/// Every unit direction component is a multiple of `MS_PER_SEC / SPEED`,
/// so its movement step divides exactly.
pub proof fn lemma_unit_component_divisible(d: int)
    requires
        unit_component(d),
    ensures
        d % 5 == 0,
{
}

/// One movement step of a single coordinate: exactly `move_delta(d, ms)`.
pub fn step_component(d: i64, ms: u32) -> (r: i64)
    requires
        unit_component(d as int),
    ensures
        r as int == move_delta(d as int, ms as int),
{
    let m = ms as i64;
    if d == 0 {
        assert(0int * (SPEED as int) / (MS_PER_SEC as int) == 0);
        let r: i64 = 0;
        assert(r as int == move_delta(d as int, ms as int));
        r
    } else if d == FX_ONE {
        assert((FX_ONE as int) * (SPEED as int) / (MS_PER_SEC as int) == 200_000);
        let r: i64 = 200_000 * m;
        assert(r as int == move_delta(d as int, ms as int));
        r
    } else if d == -FX_ONE {
        assert(-(FX_ONE as int) * (SPEED as int) / (MS_PER_SEC as int) == -200_000);
        let p = 200_000 * m;
        let r: i64 = -p;
        assert(r as int == move_delta(d as int, ms as int));
        r
    } else if d == FX_DIAG {
        assert((FX_DIAG as int) * (SPEED as int) / (MS_PER_SEC as int) == 141_421);
        let r: i64 = 141_421 * m;
        assert(r as int == move_delta(d as int, ms as int));
        r
    } else {
        assert(d as int == -(FX_DIAG as int));
        assert(-(FX_DIAG as int) * (SPEED as int) / (MS_PER_SEC as int) == -141_421);
        let p = 141_421 * m;
        let r: i64 = -p;
        assert(r as int == move_delta(d as int, ms as int));
        r
    }
}

} // verus!
