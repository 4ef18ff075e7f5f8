//! Fixed-point micro-unit scale shared by the demo scenes, and the
//! clamping functions that keep every tunable value in its valid range.

use vstd::prelude::*;

verus! {

/// One distance unit (or one unit of a normalised parameter), expressed in
/// micro-units. All positions, displacements and tunable parameters in this
/// crate are integers at this scale.
pub const UNIT: i64 = 1_000_000;

/// Clamp to the unit interval `[0, UNIT]` (the valid range of the
/// normalised bloom parameters).
pub open spec fn clamp_unit(x: int) -> int {
    if x < 0 {
        0
    } else if x > UNIT {
        UNIT as int
    } else {
        x
    }
}

/// Clamp to the machine-representable part of `[0, +inf)`: negative values
/// become 0, and values past `i64::MAX` saturate there.
pub open spec fn clamp_nonneg(x: int) -> int {
    if x < 0 {
        0
    } else if x > i64::MAX {
        i64::MAX as int
    } else {
        x
    }
}

/// An axis-aligned point or displacement in 3-D space, in micro-units.
#[derive(Clone, Copy, Debug, PartialEq, Eq, Structural)]
pub struct Vec3Fixed {
    pub x: i64,
    pub y: i64,
    pub z: i64,
}

/// Clamping is idempotent: once a value has been clamped to the unit
/// interval, clamping it again changes nothing.
pub proof fn lemma_clamp_unit_idempotent(x: int)
    ensures
        clamp_unit(clamp_unit(x)) == clamp_unit(x),
{
}

/// The lower-bounded clamp is idempotent too.
pub proof fn lemma_clamp_nonneg_idempotent(x: int)
    ensures
        clamp_nonneg(clamp_nonneg(x)) == clamp_nonneg(x),
{
}

} // verus!
