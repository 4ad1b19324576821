//! Fixed numbers of the machine: memory sizes, register and channel
//! addresses, interrupt indices and the limits of the restart monitors.

use vstd::prelude::*;

pub mod cpu;
pub mod edit;
pub mod io;
pub mod memmap;
pub mod special;
pub mod timer;

verus! {

/// Number of erasable banks.
pub const RAM_NUM_BANKS: usize = 8;

/// Number of words in one erasable bank.
pub const RAM_BANK_NUM_WORDS: usize = 256;

/// Number of fixed banks.
pub const ROM_NUM_BANKS: usize = 36;

/// Number of words in one fixed bank.
pub const ROM_BANK_NUM_WORDS: usize = 1024;

/// Number of I/O channel slots that are backed by storage.
pub const IO_NUM_CHANNELS: usize = 256;

} // verus!
