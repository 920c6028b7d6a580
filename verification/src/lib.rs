//! Times-table animation core: points on a circle, chords from each point
//! `a` to point `round(a * factor) mod n`, and a factor that grows with time.
//!
//! All quantities are exact integers. The factor is counted in ticks,
//! [`units::TICKS_PER_UNIT`] of them to one whole table unit; time is counted
//! in microseconds and the rate in ticks per microsecond.

pub mod angle;
pub mod laws;
pub mod layout;
pub mod model;
pub mod table;
pub mod units;
