use times_table::model::Connection;
use times_table::table::{TableError, TimesTableState};
use times_table::units::TICKS_PER_UNIT;

/// One second, in microseconds.
const SECOND: u64 = 1_000_000;

/// One unit per second, in ticks per microsecond.
const UNIT_PER_SECOND: i64 = 1_000_000;

fn chord(from: u32, to: u32) -> Connection {
    Connection { from, to }
}

fn table(rate: i64, point_count: u32) -> TimesTableState {
    TimesTableState::new(rate, point_count).unwrap()
}

#[test]
fn ten_points_after_three_seconds() {
    let mut state: TimesTableState = table(UNIT_PER_SECOND, 10);
    assert_eq!(state.factor(), 0);
    state.advance(3 * SECOND);
    assert_eq!(state.factor(), 3 * TICKS_PER_UNIT);
    let lines: &Vec<Connection> = state.connections();
    assert_eq!(lines.len(), 9);
    assert!(lines.contains(&chord(1, 3)));
    assert!(lines.contains(&chord(7, 1)));
    assert!(lines.contains(&chord(9, 7)));
    assert_eq!(lines[0], chord(1, 3));
    assert_eq!(lines[6], chord(7, 1));
    assert_eq!(lines[8], chord(9, 7));
}

#[test]
fn four_points_wrap_after_six_units() {
    let mut state: TimesTableState = table(2 * UNIT_PER_SECOND, 4);
    state.advance(3 * SECOND);
    assert_eq!(state.factor(), 2 * TICKS_PER_UNIT);
    assert_eq!(*state.connections(), vec![chord(1, 2), chord(2, 0), chord(3, 2)]);
}

#[test]
fn no_points_is_refused() {
    let made: Result<TimesTableState, TableError> = TimesTableState::new(UNIT_PER_SECOND, 0);
    assert!(matches!(made, Err(TableError::InvalidConfiguration)));
    let other: Result<TimesTableState, TableError> = TimesTableState::new(0, 0);
    assert_eq!(other.unwrap_err(), TableError::InvalidConfiguration);
}

#[test]
fn a_new_table_stands_at_zero() {
    let state: TimesTableState = table(-7, 5);
    assert_eq!(state.point_count(), 5);
    assert_eq!(state.rate(), -7);
    assert_eq!(state.factor(), 0);
    assert_eq!(
        *state.connections(),
        vec![chord(1, 0), chord(2, 0), chord(3, 0), chord(4, 0)]
    );
}

#[test]
fn one_point_has_no_chords() {
    let mut state: TimesTableState = table(UNIT_PER_SECOND, 1);
    assert!(state.connections().is_empty());
    state.advance(SECOND / 3);
    assert!(state.connections().is_empty());
    assert_eq!(state.factor(), 333_333 * 1_000_000);
    state.advance(SECOND);
    assert_eq!(state.factor(), 333_333 * 1_000_000);
}

#[test]
fn chords_start_at_one_two_three() {
    let mut state: TimesTableState = table(UNIT_PER_SECOND, 200);
    let mut step: u64 = 0;
    while step < 50 {
        state.advance(123_457 * step);
        let lines: &Vec<Connection> = state.connections();
        assert_eq!(lines.len(), 199);
        let mut i: usize = 0;
        while i < lines.len() {
            assert_eq!(lines[i].from as usize, i + 1);
            i += 1;
        }
        step += 1;
    }
}

#[test]
fn chords_end_inside_the_table() {
    let counts: [u32; 5] = [1, 2, 7, 10, 200];
    let rates: [i64; 6] = [0, 1, -1, UNIT_PER_SECOND, -3 * UNIT_PER_SECOND, 999_999_999_999];
    for &point_count in counts.iter() {
        for &rate in rates.iter() {
            let mut state: TimesTableState = table(rate, point_count);
            let mut step: u64 = 0;
            while step < 40 {
                state.advance(250_000 * step + 1);
                for line in state.connections().iter() {
                    assert!(line.to < point_count);
                    assert!(1 <= line.from && line.from < point_count);
                }
                step += 1;
            }
        }
    }
}

#[test]
fn chords_end_inside_at_whole_laps() {
    // The factor times the starting point is an exact multiple of the count.
    let mut state: TimesTableState = table(UNIT_PER_SECOND, 6);
    state.advance(3 * SECOND);
    assert_eq!(
        *state.connections(),
        vec![chord(1, 3), chord(2, 0), chord(3, 3), chord(4, 0), chord(5, 3)]
    );
    state.advance(3 * SECOND);
    assert_eq!(state.factor(), 0);
    assert_eq!(
        *state.connections(),
        vec![chord(1, 0), chord(2, 0), chord(3, 0), chord(4, 0), chord(5, 0)]
    );
}

#[test]
fn rounding_up_to_the_count_wraps_to_zero() {
    // 3.5 rounds to 4, and 4 mod 4 is 0.
    let mut state: TimesTableState = table(3_500_000, 4);
    state.advance(SECOND);
    assert_eq!(state.factor(), 3 * TICKS_PER_UNIT + TICKS_PER_UNIT / 2);
    assert_eq!(*state.connections(), vec![chord(1, 0), chord(2, 3), chord(3, 3)]);
}

#[test]
fn a_half_rounds_away_from_zero() {
    let mut state: TimesTableState = table(UNIT_PER_SECOND, 10);
    state.advance(SECOND / 2);
    assert_eq!(state.factor(), TICKS_PER_UNIT / 2);
    // 0.5, 1.0, 1.5, 2.0, 2.5, ... round to 1, 1, 2, 2, 3, ...
    let ends: Vec<u32> = state.connections().iter().map(|line| line.to).collect();
    assert_eq!(ends, vec![1, 1, 2, 2, 3, 3, 4, 4, 5]);
    // One tick less than a half rounds down.
    let mut below: TimesTableState = table(1, 10);
    below.advance(499_999_999_999);
    assert_eq!(below.factor(), 499_999_999_999);
    assert_eq!(below.connections()[0], chord(1, 0));
    assert_eq!(below.connections()[1], chord(2, 1));
}

#[test]
fn a_negative_rate_wraps_upwards() {
    let mut state: TimesTableState = table(-UNIT_PER_SECOND, 4);
    state.advance(SECOND);
    assert_eq!(state.factor(), 3 * TICKS_PER_UNIT);
    assert_eq!(*state.connections(), vec![chord(1, 3), chord(2, 2), chord(3, 1)]);
    state.advance(5 * SECOND);
    assert_eq!(state.factor(), 2 * TICKS_PER_UNIT);
    let mut slow: TimesTableState = table(-1, 4);
    slow.advance(1);
    assert_eq!(slow.factor(), 4 * TICKS_PER_UNIT - 1);
    assert_eq!(*slow.connections(), vec![chord(1, 0), chord(2, 0), chord(3, 0)]);
}

#[test]
fn the_factor_stays_inside_the_lap() {
    let counts: [u32; 4] = [1, 3, 10, 200];
    let rates: [i64; 7] = [i64::MIN, -UNIT_PER_SECOND, -1, 0, 1, UNIT_PER_SECOND, i64::MAX];
    let times: [u64; 6] = [0, 1, 8_333, SECOND, 86_400 * SECOND, u64::MAX];
    for &point_count in counts.iter() {
        for &rate in rates.iter() {
            let mut state: TimesTableState = table(rate, point_count);
            for &dt in times.iter() {
                state.advance(dt);
                assert!(state.factor() < (point_count as u128) * TICKS_PER_UNIT);
            }
        }
    }
}

#[test]
fn the_factor_is_the_growth_modulo_the_lap() {
    let rates: [i64; 5] = [i64::MIN, -12_345, 7, UNIT_PER_SECOND, i64::MAX];
    let times: [u64; 4] = [1, 8_333, 3 * SECOND, u64::MAX];
    let lap: i128 = 7 * (TICKS_PER_UNIT as i128);
    for &rate in rates.iter() {
        for &dt in times.iter() {
            let mut state: TimesTableState = table(rate, 7);
            state.advance(17);
            let before: i128 = state.factor() as i128;
            state.advance(dt);
            // Reduce the growth on its own first: the sum would not fit.
            let growth: i128 = ((rate as i128) * (dt as i128)).rem_euclid(lap);
            assert_eq!(state.factor() as i128, (before + growth).rem_euclid(lap));
        }
    }
}

#[test]
fn many_advances_equal_one() {
    let rates: [i64; 4] = [UNIT_PER_SECOND, -UNIT_PER_SECOND, 1_234_567, -987_654_321];
    for &rate in rates.iter() {
        let mut once: TimesTableState = table(rate, 10);
        once.advance(3 * SECOND);
        let mut thrice: TimesTableState = table(rate, 10);
        thrice.advance(SECOND);
        thrice.advance(SECOND);
        thrice.advance(SECOND);
        let mut uneven: TimesTableState = table(rate, 10);
        uneven.advance(1);
        uneven.advance(2_999_990);
        uneven.advance(0);
        uneven.advance(9);
        let mut frames: TimesTableState = table(rate, 10);
        let mut frame: u32 = 0;
        while frame < 3_000 {
            frames.advance(1_000);
            frame += 1;
        }
        assert_eq!(thrice.factor(), once.factor());
        assert_eq!(uneven.factor(), once.factor());
        assert_eq!(frames.factor(), once.factor());
        assert_eq!(*thrice.connections(), *once.connections());
        assert_eq!(*frames.connections(), *once.connections());
    }
}

#[test]
fn advancing_keeps_rate_and_count() {
    let mut state: TimesTableState = table(-42, 9);
    state.advance(5 * SECOND);
    assert_eq!(state.rate(), -42);
    assert_eq!(state.point_count(), 9);
    assert_eq!(state.factor(), 9 * TICKS_PER_UNIT - 210_000_000);
}

#[test]
fn two_hundred_points_after_one_tick() {
    // One update at 120 per second.
    let mut state: TimesTableState = table(UNIT_PER_SECOND, 200);
    state.advance(8_333);
    assert_eq!(state.factor(), 8_333_000_000);
    let lines: &Vec<Connection> = state.connections();
    assert_eq!(lines.len(), 199);
    assert_eq!(lines[59], chord(60, 0));
    assert_eq!(lines[60], chord(61, 1));
    assert_eq!(lines[179], chord(180, 1));
    assert_eq!(lines[180], chord(181, 2));
    assert_eq!(lines[198], chord(199, 2));
}
