//! A functional model of the Block II Apollo Guidance Computer: its word
//! arithmetic, banked memory, timers, I/O channels, instruction decoder and
//! execution core.

pub mod bits;
pub mod consts;
pub mod disasm;
pub mod instr;
pub mod utils;
pub mod mem;
pub mod cpu;
pub mod queue;
pub mod periph;
pub mod yaagc;
