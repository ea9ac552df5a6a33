//! Monte-Carlo simulation of loot-box ("gacha") pull schemes with pity counters,
//! soft-pity ramps and 50/50 guarantees.
//!
//! Probabilities are fixed-point integers over [`rates::RATE_SCALE`], and every
//! random draw is an integer below that scale, so the pull state machines are
//! exact integer arithmetic and their contracts hold for every draw.

pub mod rates;
pub mod dice;
pub mod track;
pub mod simple;
pub mod dual;
pub mod ramp;
pub mod titles;
pub mod batch;
pub mod plan;
