//! The fixed-point scale of the factor and rounding to whole units.

use vstd::prelude::*;

verus! {

/// Ticks in one whole unit of the factor.
pub const TICKS_PER_UNIT: u128 = 1_000_000_000_000;

/// Half a unit, the threshold at which rounding goes up.
pub const HALF_UNIT: u128 = 500_000_000_000;

/// The whole number of units nearest to `ticks`, a tie going away from zero.
/// Tick counts are never negative here, so away from zero is up.
pub open spec fn nearest_unit(ticks: nat) -> nat {
    ((ticks + HALF_UNIT) / (TICKS_PER_UNIT as int)) as nat
}

/// Rounds a tick count to the nearest whole unit, a tie going up.
pub fn round_to_unit(ticks: u128) -> (units: u128)
    ensures
        units == nearest_unit(ticks as nat),
{
    let below: u128 = ticks / TICKS_PER_UNIT;
    if ticks % TICKS_PER_UNIT >= HALF_UNIT {
        below + 1
    } else {
        below
    }
}

} // verus!
