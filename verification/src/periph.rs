//! The state that the display and the downlink keep behind their channels,
//! and what each write or key has them send. The sending itself is the
//! caller's.

pub mod downrupt;
pub mod dsky;
pub mod utils;
