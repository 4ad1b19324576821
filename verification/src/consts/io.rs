//! I/O channel numbers.

use vstd::prelude::*;

verus! {

pub const CHANNEL_L: usize = 0o01;
pub const CHANNEL_Q: usize = 0o02;
pub const CHANNEL_HISCALAR: usize = 0o03;
pub const CHANNEL_LOSCALAR: usize = 0o04;
pub const CHANNEL_PYJETS: usize = 0o05;
pub const CHANNEL_ROLLJETS: usize = 0o06;
pub const CHANNEL_SUPERBNK: usize = 0o07;
pub const CHANNEL_DSKY: usize = 0o10;
pub const CHANNEL_DSALMOUT: usize = 0o11;
pub const CHANNEL_CHAN12: usize = 0o12;
pub const CHANNEL_CHAN13: usize = 0o13;
pub const CHANNEL_CHAN14: usize = 0o14;
pub const CHANNEL_MNKEYIN: usize = 0o15;
pub const CHANNEL_NAVKEYIN: usize = 0o16;
pub const CHANNEL_CHAN30: usize = 0o30;
pub const CHANNEL_CHAN31: usize = 0o31;
pub const CHANNEL_CHAN32: usize = 0o32;
pub const CHANNEL_CHAN33: usize = 0o33;
pub const CHANNEL_CHAN34: usize = 0o34;
pub const CHANNEL_CHAN35: usize = 0o35;

/// Channel of the display's indicator lamps; bit 7 (mask `0o200`) is the
/// restart lamp.
pub const CHANNEL_LAMPS: usize = 0o163;

} // verus!
