//! What the machine asks of a peripheral, and a peripheral that is not
//! there.

use vstd::prelude::*;

pub mod engines;

verus! {

/// A device that can ask for the program's attention.
pub trait Peripheral {
    /// The interrupts that the device asks for: bit `i` stands for
    /// interrupt `i`.
    fn is_interrupt(&mut self) -> u16;
}

/// A device behind I/O channels. The machine calls it from inside a step, so
/// none of the three may block. Nothing is promised of what a device
/// answers.
pub trait AgcIoPeriph {
    /// The word that the device shows on channel `channel_idx`.
    fn read(&self, channel_idx: usize) -> u16;

    /// Hands the device the word written to channel `channel_idx`.
    fn write(&mut self, channel_idx: usize, value: u16);

    /// The interrupts that the device asks for: bit `i` stands for
    /// interrupt `i`.
    fn is_interrupt(&mut self) -> u16;
}

/// The peripheral of a machine that has none: it shows 0 on every channel,
/// drops what is written, and never interrupts.
#[derive(Debug, Clone, Copy)]
pub struct NoPeriph;

impl AgcIoPeriph for NoPeriph {
    fn read(&self, channel_idx: usize) -> (r: u16)
        ensures
            r == 0,
    {
        0
    }

    fn write(&mut self, channel_idx: usize, value: u16) {
    }

    fn is_interrupt(&mut self) -> (r: u16)
        ensures
            r == 0,
    {
        0
    }
}

} // verus!
