//! The editing registers: a word written to one of them is stored shifted,
//! and read back as stored.

use crate::consts::edit::SG_CYL;
use crate::consts::edit::SG_CYR;
use crate::consts::edit::SG_EDOP;
use crate::consts::edit::SG_SR;
use vstd::prelude::*;

verus! {

/// The low 15 bits of `value` cycled right by one place.
pub open spec fn spec_cyr(value: u16) -> u16 {
    ((value & 0x7FFF) >> 1) | (((value & 0x7FFF) & 0x1) << 14)
}

/// The low 15 bits of `value` cycled left by one place.
pub open spec fn spec_cyl(value: u16) -> u16 {
    (((value & 0x7FFF) << 1) & 0x7FFF) | (((value & 0x7FFF) & 0x4000) >> 14)
}

/// The low 15 bits of `value` shifted right by one place, bit 14 kept.
pub open spec fn spec_sr(value: u16) -> u16 {
    ((value & 0x7FFF) >> 1) | ((value & 0x7FFF) & 0o40000)
}

/// Bits 7 to 13 of `value`.
pub open spec fn spec_edop(value: u16) -> u16 {
    ((value & 0x7FFF) >> 7) & 0o177
}

#[derive(Clone, Copy, Debug, PartialEq, Eq, Structural)]
pub struct AgcEditRegs {
    pub cyr: u16,
    pub sr: u16,
    pub cyl: u16,
    pub edop: u16,
}

impl AgcEditRegs {
    /// What a read of the address `bank_offset` gives: the stored word of
    /// the register at that address, 0 at any other address.
    pub open spec fn spec_read(self, bank_offset: usize) -> u16 {
        if bank_offset == SG_CYL {
            self.cyl
        } else if bank_offset == SG_CYR {
            self.cyr
        } else if bank_offset == SG_SR {
            self.sr
        } else if bank_offset == SG_EDOP {
            self.edop
        } else {
            0
        }
    }

    /// The registers after `value` is written to the address `bank_offset`:
    /// the register at that address holds the edited word; a write to any
    /// other address changes nothing.
    pub open spec fn spec_write(self, bank_offset: usize, value: u16) -> AgcEditRegs {
        if bank_offset == SG_CYL {
            AgcEditRegs { cyl: spec_cyl(value), ..self }
        } else if bank_offset == SG_CYR {
            AgcEditRegs { cyr: spec_cyr(value), ..self }
        } else if bank_offset == SG_SR {
            AgcEditRegs { sr: spec_sr(value), ..self }
        } else if bank_offset == SG_EDOP {
            AgcEditRegs { edop: spec_edop(value), ..self }
        } else {
            self
        }
    }

    pub fn new() -> (r: Self)
        ensures
            r == (AgcEditRegs { cyr: 0, sr: 0, cyl: 0, edop: 0 }),
    {
        Self { cyl: 0, cyr: 0, sr: 0, edop: 0 }
    }

    pub fn reset(&mut self)
        ensures
            *final(self) == (AgcEditRegs { cyr: 0, sr: 0, cyl: 0, edop: 0 }),
    {
        self.cyl = 0;
        self.cyr = 0;
        self.sr = 0;
        self.edop = 0;
    }

    pub fn read(&self, _bank_idx: usize, bank_offset: usize) -> (r: u16)
        ensures
            r == self.spec_read(bank_offset),
    {
        if bank_offset == SG_CYL {
            self.cyl
        } else if bank_offset == SG_CYR {
            self.cyr
        } else if bank_offset == SG_SR {
            self.sr
        } else if bank_offset == SG_EDOP {
            self.edop
        } else {
            0
        }
    }

    pub fn write(&mut self, _bank_idx: usize, bank_offset: usize, value: u16)
        ensures
            *final(self) == old(self).spec_write(bank_offset, value),
    {
        let newval: u16 = value & 0x7FFF;
        if bank_offset == SG_CYL {
            let bitval: u16 = newval & 0x4000;
            self.cyl = ((newval << 1) & 0x7FFF) | (bitval >> 14);
        } else if bank_offset == SG_CYR {
            let bitval: u16 = newval & 0x1;
            self.cyr = (newval >> 1) | (bitval << 14);
        } else if bank_offset == SG_SR {
            let bitval: u16 = newval & 0o40000;
            self.sr = (newval >> 1) | bitval;
        } else if bank_offset == SG_EDOP {
            self.edop = (newval >> 7) & 0o177;
        }
    }
}

/// Every edited word fits in 15 bits; the shift register keeps the sign bit
/// and halves the rest, and the two cycles undo each other.
pub proof fn lemma_edit_words(value: u16)
    by (bit_vector)
    ensures
        spec_cyr(value) <= 0x7FFF,
        spec_cyl(value) <= 0x7FFF,
        spec_sr(value) <= 0x7FFF,
        spec_edop(value) <= 0o177,
        spec_sr(value) & 0o40000 == value & 0o40000,
        spec_sr(value) & 0o37777 == (value & 0x7FFF) >> 1,
        spec_cyl(spec_cyr(value)) == value & 0x7FFF,
        spec_cyr(spec_cyl(value)) == value & 0x7FFF,
{
}

} // verus!
