//! The animated state of a times table.

use vstd::prelude::*;
use vstd::arithmetic::div_mod::{
    lemma_add_mod_noop_right,
    lemma_mod_add_multiples_vanish,
    lemma_sub_mod_noop_right,
};
use crate::angle::Angle;
use crate::model::{
    advanced,
    connection,
    connections,
    cursor_angle,
    lap,
    target,
    Connection,
    TableModel,
};
use crate::units::{round_to_unit, TICKS_PER_UNIT};

verus! {

/// Why a table could not be made.
#[derive(Clone, Copy, Debug, PartialEq, Eq, Structural)]
pub enum TableError {
    /// A table needs at least one point: with none, no index is defined.
    InvalidConfiguration,
}

/// A times table in motion: a fixed number of points, a fixed rate, and a
/// factor that `advance` moves. The chord list is kept in step with the
/// factor.
#[derive(Debug)]
pub struct TimesTableState {
    rate: i64,
    point_count: u32,
    factor: u128,
    lines: Vec<Connection>,
}

impl View for TimesTableState {
    type V = TableModel;

    closed spec fn view(&self) -> TableModel {
        TableModel {
            point_count: self.point_count as nat,
            rate: self.rate as int,
            factor: self.factor as nat,
        }
    }
}

impl TimesTableState {
    #[verifier::type_invariant]
    spec fn inv(&self) -> bool {
        &&& 0 < self.point_count
        &&& self.factor < lap(self.point_count as nat)
        &&& self.lines@ == connections(self.factor as nat, self.point_count as nat)
    }

    /// A table of `point_count` points whose factor starts at 0 and grows by
    /// `rate` ticks per microsecond. A table without points is refused.
    pub fn new(rate: i64, point_count: u32) -> (made: Result<TimesTableState, TableError>)
        ensures
            made is Err <==> point_count == 0,
            made matches Ok(state) ==> state@ == (TableModel {
                point_count: point_count as nat,
                rate: rate as int,
                factor: 0,
            }) && state@.valid(),
            made matches Err(error) ==> error == TableError::InvalidConfiguration,
    {
        if point_count == 0 {
            return Err(TableError::InvalidConfiguration);
        }
        let lines: Vec<Connection> = make_lines(point_count, 0);
        Ok(TimesTableState { rate, point_count, factor: 0, lines })
    }

    /// Lets `dt` microseconds pass: the factor grows by `rate * dt`, wraps
    /// into the lap, and the chords are drawn anew.
    pub fn advance(&mut self, dt: u64)
        ensures
            final(self)@.point_count == old(self)@.point_count,
            final(self)@.rate == old(self)@.rate,
            final(self)@.factor == advanced(
                old(self)@.factor,
                old(self)@.rate,
                dt as nat,
                old(self)@.point_count,
            ),
            final(self)@.valid(),
    {
        proof {
            use_type_invariant(&*self);
        }
        let next: u128 = advance_factor(self.factor, self.rate, dt, self.point_count);
        let lines: Vec<Connection> = make_lines(self.point_count, next);
        *self = TimesTableState {
            rate: self.rate,
            point_count: self.point_count,
            factor: next,
            lines,
        };
    }

    /// The chords as of the last `advance`, or of the start.
    pub fn connections(&self) -> (lines: &Vec<Connection>)
        ensures
            lines@ == connections(self@.factor, self@.point_count),
            lines@.len() == self@.point_count - 1,
            forall|i: int| 0 <= i < lines@.len() ==> {
                &&& (#[trigger] lines@[i]).from == i + 1
                &&& lines@[i].to == target((i + 1) as nat, self@.factor, self@.point_count)
                &&& lines@[i].to < self@.point_count
            },
            self@.valid(),
    {
        proof {
            use_type_invariant(self);
        }
        &self.lines
    }

    /// The angle of the cursor that runs along the rim with the factor.
    pub fn cursor_angle(&self) -> (angle: Angle)
        ensures
            angle == cursor_angle(self@.factor, self@.point_count),
            angle.ticks == self@.factor,
            angle.full_turn == lap(self@.point_count),
            angle.ticks < angle.full_turn,
    {
        proof {
            use_type_invariant(self);
        }
        Angle { ticks: self.factor, full_turn: (self.point_count as u128) * TICKS_PER_UNIT }
    }

    /// The factor, in ticks.
    pub fn factor(&self) -> (factor: u128)
        ensures
            factor == self@.factor,
            self@.valid(),
    {
        proof {
            use_type_invariant(self);
        }
        self.factor
    }

    /// The rate, in ticks per microsecond.
    pub fn rate(&self) -> (rate: i64)
        ensures
            rate == self@.rate,
    {
        self.rate
    }

    /// The number of points.
    pub fn point_count(&self) -> (point_count: u32)
        ensures
            point_count == self@.point_count,
            0 < point_count,
    {
        proof {
            use_type_invariant(self);
        }
        self.point_count
    }
}

/// The chords of a table of `point_count` points at the given factor.
fn make_lines(point_count: u32, factor: u128) -> (lines: Vec<Connection>)
    requires
        0 < point_count,
        factor < lap(point_count as nat),
    ensures
        lines@ == connections(factor as nat, point_count as nat),
{
    let mut lines: Vec<Connection> = Vec::new();
    let mut a: u32 = 1;
    while a < point_count
        invariant
            1 <= a <= point_count,
            factor < lap(point_count as nat),
            lines@.len() == a - 1,
            forall|i: int| 0 <= i < lines@.len()
                ==> lines@[i] == connection((i + 1) as nat, factor as nat, point_count as nat),
        decreases point_count - a,
    {
        assert(a * factor <= u128::MAX) by (nonlinear_arith)
            requires
                a < 0x1_0000_0000,
                factor < 0x1_0000_0000 * TICKS_PER_UNIT,
                TICKS_PER_UNIT == 1_000_000_000_000,
        ;
        let product: u128 = (a as u128) * factor;
        let rounded: u128 = round_to_unit(product);
        let to: u128 = rounded % (point_count as u128);
        lines.push(Connection { from: a, to: to as u32 });
        a = a + 1;
    }
    assert(lines@ =~= connections(factor as nat, point_count as nat));
    lines
}

/// The size of a rate, without its sign.
fn magnitude(rate: i64) -> (size: u64)
    ensures
        size == if rate < 0 { -rate } else { rate as int },
{
    if rate >= 0 {
        rate as u64
    } else if rate == i64::MIN {
        0x8000_0000_0000_0000u64
    } else {
        (-rate) as u64
    }
}

/// The factor after `dt` microseconds, wrapped into the lap.
fn advance_factor(factor: u128, rate: i64, dt: u64, point_count: u32) -> (next: u128)
    requires
        0 < point_count,
        factor < lap(point_count as nat),
    ensures
        next == advanced(factor as nat, rate as int, dt as nat, point_count as nat),
        next < lap(point_count as nat),
{
    let span: u128 = (point_count as u128) * TICKS_PER_UNIT;
    let size: u64 = magnitude(rate);
    assert(size * dt <= u128::MAX) by (nonlinear_arith)
        requires
            size <= 0x8000_0000_0000_0000,
            dt <= 0xffff_ffff_ffff_ffff,
    ;
    let growth: u128 = (size as u128) * (dt as u128);
    let step: u128 = growth % span;
    if rate >= 0 {
        proof {
            assert(rate * dt == growth) by (nonlinear_arith)
                requires
                    rate == size,
                    growth == size * dt,
            ;
            lemma_add_mod_noop_right(factor as int, growth as int, span as int);
        }
        (factor + step) % span
    } else {
        proof {
            assert(rate * dt == -growth) by (nonlinear_arith)
                requires
                    rate == -size,
                    growth == size * dt,
            ;
            lemma_sub_mod_noop_right(factor as int, growth as int, span as int);
            lemma_mod_add_multiples_vanish(factor - step, span as int);
        }
        (factor + (span - step)) % span
    }
}

} // verus!
