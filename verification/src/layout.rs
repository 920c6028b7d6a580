//! The points of the circle.

use vstd::prelude::*;
use crate::angle::Angle;
use crate::model::{lap, point_angle, point_angles};
use crate::units::TICKS_PER_UNIT;

verus! {

/// The points of a circle in order, each by its angle. The points stand a
/// whole unit apart, so `point_count` of them share the full turn evenly.
#[derive(Debug)]
pub struct CircleLayout {
    points: Vec<Angle>,
}

impl View for CircleLayout {
    type V = Seq<Angle>;

    closed spec fn view(&self) -> Seq<Angle> {
        self.points@
    }
}

impl CircleLayout {
    /// The layout of `point_count` points; of no points, the empty layout.
    pub fn generate(point_count: u32) -> (layout: CircleLayout)
        ensures
            layout@ == point_angles(point_count as nat),
            layout@.len() == point_count,
            forall|i: int| 0 <= i < point_count ==> {
                &&& (#[trigger] layout@[i]).ticks == i * TICKS_PER_UNIT
                &&& layout@[i].full_turn == point_count * TICKS_PER_UNIT
            },
    {
        let full_turn: u128 = (point_count as u128) * TICKS_PER_UNIT;
        let mut points: Vec<Angle> = Vec::new();
        let mut i: u32 = 0;
        while i < point_count
            invariant
                i <= point_count,
                full_turn == lap(point_count as nat),
                points@.len() == i,
                forall|k: int| 0 <= k < points@.len()
                    ==> points@[k] == point_angle(k as nat, point_count as nat),
            decreases point_count - i,
        {
            points.push(Angle { ticks: (i as u128) * TICKS_PER_UNIT, full_turn });
            i = i + 1;
        }
        assert(points@ =~= point_angles(point_count as nat));
        CircleLayout { points }
    }

    /// The points, in order.
    pub fn points(&self) -> (points: &Vec<Angle>)
        ensures
            points@ == self@,
    {
        &self.points
    }
}

} // verus!
