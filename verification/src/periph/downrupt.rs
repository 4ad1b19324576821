//! The downlink: it notes the word order that channel 13 selects and passes
//! on the two downlink words.

use crate::consts::io::CHANNEL_CHAN13;
use crate::consts::io::CHANNEL_CHAN30;
use crate::consts::io::CHANNEL_CHAN34;
use crate::consts::io::CHANNEL_CHAN35;
use vstd::prelude::*;

verus! {

#[derive(Debug, Clone, Copy, PartialEq, Eq, Structural)]
pub struct DownruptPeriph {
    pub word_order: bool,
}

impl DownruptPeriph {
    /// What the downlink shows on channel `channel_idx`: the word order in
    /// bit 6 of channel 13, no signal on channels 30 to 35, 0 elsewhere.
    pub open spec fn spec_read(self, channel_idx: usize) -> u16 {
        if channel_idx == CHANNEL_CHAN13 {
            if self.word_order {
                0o100
            } else {
                0o00000
            }
        } else if CHANNEL_CHAN30 <= channel_idx <= CHANNEL_CHAN35 {
            0o77777
        } else {
            0o00000
        }
    }

    /// Whether a write to channel `channel_idx` is a downlink word to send.
    pub open spec fn sends(channel_idx: usize) -> bool {
        channel_idx == CHANNEL_CHAN34 || channel_idx == CHANNEL_CHAN35
    }

    pub fn new() -> (r: Self)
        ensures
            !r.word_order,
    {
        DownruptPeriph { word_order: false }
    }

    /// The word that the downlink shows on channel `channel_idx`.
    pub fn read(&self, channel_idx: usize) -> (r: u16)
        ensures
            r == self.spec_read(channel_idx),
    {
        if channel_idx == CHANNEL_CHAN13 {
            if self.word_order {
                0o100
            } else {
                0o00000
            }
        } else if CHANNEL_CHAN30 <= channel_idx && channel_idx <= CHANNEL_CHAN35 {
            0o77777
        } else {
            0o00000
        }
    }

    /// Takes the write of `value` to channel `channel_idx` and returns the
    /// downlink word to send, if the write is one: channel 13 sets the word
    /// order from bit 6, channels 34 and 35 carry the words.
    pub fn write(&mut self, channel_idx: usize, value: u16) -> (r: Option<(usize, u16)>)
        ensures
            final(self).word_order == if channel_idx == CHANNEL_CHAN13 {
                value & 0o100 != 0o00000
            } else {
                old(self).word_order
            },
            r == if Self::sends(channel_idx) {
                Some((channel_idx, value))
            } else {
                None
            },
    {
        if channel_idx == CHANNEL_CHAN13 {
            self.word_order = value & 0o100 != 0o00000;
            None
        } else if channel_idx == CHANNEL_CHAN34 || channel_idx == CHANNEL_CHAN35 {
            Some((channel_idx, value))
        } else {
            None
        }
    }

    /// The downlink asks for no interrupt of its own.
    pub fn is_interrupt(&mut self) -> (r: u16)
        ensures
            r == 0,
            *final(self) == *old(self),
    {
        0
    }
}

} // verus!
