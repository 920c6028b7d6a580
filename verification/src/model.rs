//! The mathematical model of a times table: what a state is, how time moves
//! its factor, which chords it draws and where things stand on the rim.

use vstd::prelude::*;
use crate::angle::Angle;
use crate::units::{nearest_unit, TICKS_PER_UNIT};

verus! {

/// One chord: the point it starts at and the point it ends at, both by index.
#[derive(Clone, Copy, Debug, PartialEq, Eq, Structural)]
pub struct Connection {
    pub from: u32,
    pub to: u32,
}

/// A table as plain numbers: how many points, how fast the factor grows
/// (ticks per microsecond, possibly negative) and the factor itself (ticks).
pub struct TableModel {
    pub point_count: nat,
    pub rate: int,
    pub factor: nat,
}

impl TableModel {
    /// A table has at least one point, a count that fits its index type, and
    /// a factor inside its lap.
    pub open spec fn valid(self) -> bool {
        &&& 0 < self.point_count <= u32::MAX
        &&& self.factor < lap(self.point_count)
    }
}

/// Ticks in one full lap of the factor of a table of `point_count` points.
/// The factor is kept below this.
pub open spec fn lap(point_count: nat) -> nat {
    point_count * (TICKS_PER_UNIT as nat)
}

/// The factor after `dt` microseconds at `rate` ticks per microsecond: it has
/// grown by `rate * dt` and is wrapped into the lap by the mathematical
/// modulo, so it is never negative, whatever the sign of the rate.
pub open spec fn advanced(factor: nat, rate: int, dt: nat, point_count: nat) -> nat {
    ((factor + rate * dt) % (lap(point_count) as int)) as nat
}

/// The sum of a list of times.
pub open spec fn total(dts: Seq<nat>) -> nat
    decreases dts.len(),
{
    if dts.len() == 0 {
        0
    } else {
        total(dts.drop_last()) + dts.last()
    }
}

/// The factor after one advance for each time of the list, in order.
pub open spec fn advanced_through(factor: nat, rate: int, dts: Seq<nat>, point_count: nat) -> nat
    decreases dts.len(),
{
    if dts.len() == 0 {
        factor
    } else {
        advanced(
            advanced_through(factor, rate, dts.drop_last(), point_count),
            rate,
            dts.last(),
            point_count,
        )
    }
}

/// The point that point `a` is joined to: `a` times the factor, rounded to a
/// whole number, modulo the number of points.
pub open spec fn target(a: nat, factor: nat, point_count: nat) -> nat {
    nearest_unit(a * factor) % point_count
}

/// The chord that starts at point `a`.
pub open spec fn connection(a: nat, factor: nat, point_count: nat) -> Connection {
    Connection { from: a as u32, to: target(a, factor, point_count) as u32 }
}

/// The chords of a table in order: one for each point from 1 to the last.
/// Point 0 starts none.
pub open spec fn connections(factor: nat, point_count: nat) -> Seq<Connection> {
    Seq::new((point_count - 1) as nat, |i: int| connection((i + 1) as nat, factor, point_count))
}

/// Where the cursor stands on the rim: it has gone `factor` ticks of the lap,
/// so its angle is the factor times a full turn over the number of points.
pub open spec fn cursor_angle(factor: nat, point_count: nat) -> Angle {
    Angle { ticks: factor as u128, full_turn: lap(point_count) as u128 }
}

/// Where point `i` stands on the rim: `i` whole units into the lap.
pub open spec fn point_angle(i: nat, point_count: nat) -> Angle {
    Angle { ticks: (i * TICKS_PER_UNIT) as u128, full_turn: lap(point_count) as u128 }
}

/// The points of a circle of `point_count` points, in order.
pub open spec fn point_angles(point_count: nat) -> Seq<Angle> {
    Seq::new(point_count, |i: int| point_angle(i as nat, point_count))
}

} // verus!
