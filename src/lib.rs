//! Progression engine of a terminal idle game: upgrades bought with gold,
//! passive accrual over time, a cooldown-gated click, and achievements.
//!
//! All amounts are integers. Gold is counted in millionths of a gold piece
//! ("units"). A passive production rate is counted in units per millisecond,
//! which is the same number as thousandths of a gold piece per second. Times
//! are milliseconds on a clock that the caller supplies.

pub mod achievement;
pub mod catalog;
pub mod display;
pub mod game;
pub mod session;
pub mod upgrade;
