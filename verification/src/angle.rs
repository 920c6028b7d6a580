//! Angles as exact fractions of a full turn.

use vstd::prelude::*;

verus! {

/// An angle: `ticks` out of `full_turn`, counted from the direction of
/// point 0. In radians it is `2π * ticks / full_turn`.
#[derive(Clone, Copy, Debug, PartialEq, Eq, Structural)]
pub struct Angle {
    pub ticks: u128,
    pub full_turn: u128,
}

} // verus!
