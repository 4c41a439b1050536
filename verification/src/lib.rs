//! The per-unit simulation model of a deterministic, turn-based strategy
//! game: balance constants, the stat records of the seven unit kinds with
//! their research progression, and the unit entity itself.

pub mod constants;
pub mod error;
pub mod location;
pub mod research;
pub mod world;
pub mod unit;
