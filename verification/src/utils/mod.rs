//! Helpers for the text that an agent writes, and for watching what an
//! agent uses.

pub mod debug;
pub mod performance;
pub mod processing;
