//! The special registers: the input counters of the inertial and optical
//! units, which the program can read but not write, and the uplink register.

use crate::consts::special::SG_CDUX;
use crate::consts::special::SG_CDUY;
use crate::consts::special::SG_CDUZ;
use crate::consts::special::SG_INLINK;
use crate::consts::special::SG_OPTX;
use crate::consts::special::SG_OPTY;
use crate::consts::special::SG_PIPAX;
use crate::consts::special::SG_PIPAY;
use crate::consts::special::SG_PIPAZ;
use vstd::prelude::*;

verus! {

#[derive(Clone, Copy, Debug)]
pub struct AgcSpecialRegs {
    pub cdu: (u16, u16, u16),
    pub opt: (u16, u16),
    pub pipa: (u16, u16, u16),
    /// Pitch, yaw and roll of the hand controller.
    pub rch: (u16, u16, u16),
    /// The word last received on the uplink.
    pub inlink: u16,
}

impl AgcSpecialRegs {
    /// What a read of the address `bank_offset` of bank `bank_idx` gives: the
    /// counter or link word at that address in bank 0, and 0 for the command
    /// registers, the outlink, any other address and any other bank.
    pub open spec fn spec_read(self, bank_idx: usize, bank_offset: usize) -> u16 {
        if bank_idx != 0 {
            0
        } else if bank_offset == SG_CDUX {
            self.cdu.0
        } else if bank_offset == SG_CDUY {
            self.cdu.1
        } else if bank_offset == SG_CDUZ {
            self.cdu.2
        } else if bank_offset == SG_OPTX {
            self.opt.0
        } else if bank_offset == SG_OPTY {
            self.opt.1
        } else if bank_offset == SG_PIPAX {
            self.pipa.0
        } else if bank_offset == SG_PIPAY {
            self.pipa.1
        } else if bank_offset == SG_PIPAZ {
            self.pipa.2
        } else if bank_offset == SG_INLINK {
            self.inlink
        } else {
            0
        }
    }

    /// The registers after `value` is written to the address `bank_offset`:
    /// the uplink register takes the low 15 bits; a write to any other
    /// address is discarded.
    pub open spec fn spec_write(self, bank_offset: usize, value: u16) -> AgcSpecialRegs {
        if bank_offset == SG_INLINK {
            AgcSpecialRegs { inlink: value & 0x7FFF, ..self }
        } else {
            self
        }
    }

    /// The registers with every word 0.
    pub open spec fn cleared() -> AgcSpecialRegs {
        AgcSpecialRegs { cdu: (0, 0, 0), opt: (0, 0), pipa: (0, 0, 0), rch: (0, 0, 0), inlink: 0 }
    }

    pub fn new() -> (r: Self)
        ensures
            r == Self::cleared(),
    {
        Self { cdu: (0, 0, 0), inlink: 0, opt: (0, 0), pipa: (0, 0, 0), rch: (0, 0, 0) }
    }

    /// A restart leaves the special registers as they are.
    pub fn reset(&mut self)
        ensures
            *final(self) == *old(self),
    {
    }

    pub fn read(&self, bank_idx: usize, bank_offset: usize) -> (r: u16)
        ensures
            r == self.spec_read(bank_idx, bank_offset),
    {
        if bank_idx != 0 {
            0
        } else if bank_offset == SG_CDUX {
            self.cdu.0
        } else if bank_offset == SG_CDUY {
            self.cdu.1
        } else if bank_offset == SG_CDUZ {
            self.cdu.2
        } else if bank_offset == SG_OPTX {
            self.opt.0
        } else if bank_offset == SG_OPTY {
            self.opt.1
        } else if bank_offset == SG_PIPAX {
            self.pipa.0
        } else if bank_offset == SG_PIPAY {
            self.pipa.1
        } else if bank_offset == SG_PIPAZ {
            self.pipa.2
        } else if bank_offset == SG_INLINK {
            self.inlink
        } else {
            0
        }
    }

    pub fn write(&mut self, _bank_idx: usize, bank_offset: usize, value: u16)
        ensures
            *final(self) == old(self).spec_write(bank_offset, value),
    {
        if bank_offset == SG_INLINK {
            self.inlink = value & 0x7FFF;
        }
    }
}

} // verus!
