//! Bounds of the regions of the 12-bit address space.

use vstd::prelude::*;

verus! {

pub const AGC_MM_REGS_START: usize = 0o0000;
pub const AGC_MM_REGS_END: usize = 0o0017;
pub const AGC_MM_EDIT_START: usize = 0o0020;
pub const AGC_MM_EDIT_END: usize = 0o0023;
pub const AGC_MM_TIMER_START: usize = 0o0024;
pub const AGC_MM_TIMER_END: usize = 0o0031;
pub const AGC_MM_SPECIAL_START: usize = 0o0032;
pub const AGC_MM_SPECIAL_END: usize = 0o0060;
pub const AGC_MM_ERASABLE_START: usize = 0o0061;
pub const AGC_MM_ERASABLE_END: usize = 0o1777;
pub const AGC_MM_FIXED_START: usize = 0o2000;
pub const AGC_MM_FIXED_END: usize = 0o7777;

} // verus!
