//! What holds of every table, proved over the model.

use vstd::prelude::*;
use vstd::arithmetic::div_mod::{
    lemma_add_mod_noop_right,
    lemma_mod_bound,
    lemma_mod_multiples_vanish,
    lemma_small_mod,
};
use vstd::arithmetic::mul::lemma_mul_is_distributive_add;
use crate::model::{
    advanced,
    advanced_through,
    connections,
    cursor_angle,
    lap,
    point_angle,
    point_angles,
    target,
    total,
};
use crate::units::{nearest_unit, HALF_UNIT, TICKS_PER_UNIT};

verus! {

/// Rounding picks the nearest whole number: the result is within half a unit
/// of the tick count, a tie going up, and no other whole number is.
pub proof fn lemma_nearest_unit_is_nearest(ticks: nat, units: int)
    ensures
        nearest_unit(ticks) * TICKS_PER_UNIT - HALF_UNIT <= ticks,
        ticks < nearest_unit(ticks) * TICKS_PER_UNIT + HALF_UNIT,
        units * TICKS_PER_UNIT - HALF_UNIT <= ticks < units * TICKS_PER_UNIT + HALF_UNIT
            ==> units == nearest_unit(ticks),
{
}

/// A whole number of units rounds to itself.
pub proof fn lemma_nearest_unit_of_whole(units: nat)
    ensures
        nearest_unit(units * (TICKS_PER_UNIT as nat)) == units,
{
}

/// Every chord ends at a point of the table, whatever the factor and
/// whichever point it starts at.
pub proof fn lemma_target_in_range(a: nat, factor: nat, point_count: nat)
    requires
        0 < point_count,
    ensures
        target(a, factor, point_count) < point_count,
{
    lemma_mod_bound(nearest_unit(a * factor) as int, point_count as int);
}

/// The chord list has one entry for each point but point 0; the entries start
/// at the points 1, 2, ... in this order, and each ends inside the table.
pub proof fn lemma_connections_shape(factor: nat, point_count: nat)
    requires
        0 < point_count <= u32::MAX,
    ensures
        connections(factor, point_count).len() == point_count - 1,
        forall|i: int| 0 <= i < point_count - 1 ==> {
            &&& (#[trigger] connections(factor, point_count)[i]).from == i + 1
            &&& connections(factor, point_count)[i].to == target((i + 1) as nat, factor, point_count)
            &&& connections(factor, point_count)[i].to < point_count
        },
{
    assert forall|i: int| 0 <= i < point_count - 1 implies {
        &&& (#[trigger] connections(factor, point_count)[i]).from == i + 1
        &&& connections(factor, point_count)[i].to == target((i + 1) as nat, factor, point_count)
        &&& connections(factor, point_count)[i].to < point_count
    } by {
        lemma_target_in_range((i + 1) as nat, factor, point_count);
    }
}

/// A lap more or less of factor draws the same chords: only the factor's
/// place within the lap matters.
pub proof fn lemma_target_ignores_laps(a: nat, factor: nat, point_count: nat)
    requires
        0 < point_count,
    ensures
        target(a, factor + lap(point_count), point_count) == target(a, factor, point_count),
{
    let whole: nat = a * point_count;
    assert(a * (factor + lap(point_count)) == a * factor + whole * TICKS_PER_UNIT)
        by (nonlinear_arith)
        requires
            whole == a * point_count,
            lap(point_count) == point_count * TICKS_PER_UNIT,
    ;
    assert(nearest_unit(a * (factor + lap(point_count))) == nearest_unit(a * factor) + whole);
    assert(whole == point_count * a) by (nonlinear_arith)
        requires
            whole == a * point_count,
    ;
    lemma_mod_multiples_vanish(a as int, nearest_unit(a * factor) as int, point_count as int);
}

/// After any advance the factor is inside the lap: never negative, never a
/// whole lap or more.
pub proof fn lemma_advanced_in_lap(factor: nat, rate: int, dt: nat, point_count: nat)
    requires
        0 < point_count,
    ensures
        advanced(factor, rate, dt, point_count) < lap(point_count),
{
    lemma_mod_bound(factor + rate * dt, lap(point_count) as int);
}

/// Time adds up: two advances in a row leave the factor where one advance by
/// the sum of their times leaves it.
pub proof fn lemma_advance_adds(factor: nat, rate: int, dt1: nat, dt2: nat, point_count: nat)
    requires
        0 < point_count,
    ensures
        advanced(advanced(factor, rate, dt1, point_count), rate, dt2, point_count) == advanced(
            factor,
            rate,
            dt1 + dt2,
            point_count,
        ),
{
    let span: int = lap(point_count) as int;
    lemma_mod_bound(factor + rate * dt1, span);
    lemma_add_mod_noop_right(rate * dt2, factor + rate * dt1, span);
    lemma_mul_is_distributive_add(rate, dt1 as int, dt2 as int);
}

/// Time adds up over any number of advances: going through a list of times
/// one by one leaves the factor where one advance by their total leaves it.
pub proof fn lemma_advance_through_is_one_advance(
    factor: nat,
    rate: int,
    dts: Seq<nat>,
    point_count: nat,
)
    requires
        0 < point_count,
        factor < lap(point_count),
    ensures
        advanced_through(factor, rate, dts, point_count) == advanced(
            factor,
            rate,
            total(dts),
            point_count,
        ),
    decreases dts.len(),
{
    if dts.len() == 0 {
        assert(rate * total(dts) == 0) by (nonlinear_arith)
            requires
                total(dts) == 0,
        ;
        lemma_small_mod(factor, lap(point_count));
    } else {
        lemma_advance_through_is_one_advance(factor, rate, dts.drop_last(), point_count);
        lemma_advance_adds(factor, rate, total(dts.drop_last()), dts.last(), point_count);
    }
}

/// The points share the turn evenly: each stands one unit after the one
/// before it, the first stands one unit after the last, and a unit is the
/// full turn divided by the number of points.
pub proof fn lemma_points_evenly_spaced(point_count: nat)
    requires
        0 < point_count <= u32::MAX,
    ensures
        point_angles(point_count).len() == point_count,
        point_angles(point_count)[0].ticks == 0,
        forall|i: int| 0 <= i < point_count ==> (#[trigger] point_angles(point_count)[i]).full_turn
            == point_count * TICKS_PER_UNIT,
        forall|i: int| 0 <= i < point_count - 1 ==> (#[trigger] point_angles(point_count)[i + 1]).ticks
            - point_angles(point_count)[i].ticks == TICKS_PER_UNIT,
        point_angles(point_count)[point_count - 1].full_turn - point_angles(point_count)[point_count
            - 1].ticks == TICKS_PER_UNIT,
{
    assert forall|i: int| 0 <= i < point_count implies {
        &&& (#[trigger] point_angles(point_count)[i]).ticks == i * TICKS_PER_UNIT
        &&& point_angles(point_count)[i].full_turn == point_count * TICKS_PER_UNIT
    } by {
        assert(i * TICKS_PER_UNIT < 0x1_0000_0000 * TICKS_PER_UNIT);
    }
}

/// When the factor is a whole number, the cursor stands at the point of that
/// number.
pub proof fn lemma_cursor_meets_point(i: nat, point_count: nat)
    requires
        i < point_count,
    ensures
        cursor_angle(i * (TICKS_PER_UNIT as nat), point_count) == point_angle(i, point_count),
{
}

} // verus!
