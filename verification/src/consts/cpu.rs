//! Register addresses, interrupt indices and restart-monitor limits.

use vstd::prelude::*;

verus! {

pub const REG_A: usize = 0x0;
pub const REG_L: usize = 0x1;
pub const REG_B: usize = 0x1;
pub const REG_Q: usize = 0x2;
pub const REG_LR: usize = 0x2;
pub const REG_EB: usize = 0x3;
pub const REG_FB: usize = 0x4;
pub const REG_Z: usize = 0x5;
pub const REG_PC: usize = 0x5;
pub const REG_BB: usize = 0x6;
pub const REG_ZERO: usize = 0x7;
pub const REG_A_SHADOW: usize = 0x8;
pub const REG_B_SHADOW: usize = 0x9;
pub const REG_LR_SHADOW: usize = 0xA;
pub const REG_EB_SHADOW: usize = 0xB;
pub const REG_FB_SHADOW: usize = 0xC;
pub const REG_PC_SHADOW: usize = 0xD;
pub const REG_BB_SHADOW: usize = 0xE;
pub const REG_IR: usize = 0xF;
pub const REG_MAX: usize = 0x10;

pub const RUPT_RESET: u8 = 0x0;
pub const RUPT_TIME6: u8 = 0x1;
pub const RUPT_TIME5: u8 = 0x2;
pub const RUPT_TIME3: u8 = 0x3;
pub const RUPT_TIME4: u8 = 0x4;
pub const RUPT_KEY1: u8 = 0x5;
pub const RUPT_KEY2: u8 = 0x6;
pub const RUPT_UPRUPT: u8 = 0x7;
pub const RUPT_DOWNRUPT: u8 = 0x8;
pub const RUPT_RADAR: u8 = 0x9;
pub const RUPT_HANDRUPT: u8 = 0xA;

/// The bit that stands for interrupt `i` in an interrupt mask is bit `i`.
pub const RUPT_BIT_TIME6: u16 = 0x0002;
pub const RUPT_BIT_TIME5: u16 = 0x0004;
pub const RUPT_BIT_TIME3: u16 = 0x0008;
pub const RUPT_BIT_TIME4: u16 = 0x0010;
pub const RUPT_BIT_KEY1: u16 = 0x0020;
pub const RUPT_BIT_DOWNRUPT: u16 = 0x0100;

/// Address of the first interrupt vector; vector `i` lies at `RUPT_VECTOR_BASE + 4 * i`.
pub const RUPT_VECTOR_BASE: u16 = 0x800;

/// Address whose use keeps the night watchman quiet.
pub const NIGHTWATCH_ADDR: usize = 0o67;

/// Length of the night watchman's window in MCTs: 1.92 s at 11.7 us,
/// rounded down.
pub const NIGHTWATCH_TIME: u32 = 164102;

/// Number of consecutive TC/TCF instructions, or of consecutive other
/// instructions, that trips the TC trap: 15 ms at 11.7 us, rounded down.
pub const TCMONITOR_COUNT: u32 = 1282;

/// Number of MCTs spent wholly inside or wholly outside interrupt service
/// that trips the rupt lock: 300 ms at 11.7 us, rounded down.
pub const RUPT_LOCK_COUNT: i32 = 25641;

} // verus!
