//! The register file: sixteen addressable registers. A and Q hold 16 bits, Z
//! holds 12, the others 15. EB, FB and BB show the two bank selectors, and
//! address 7 always reads 0.

use crate::consts::cpu::REG_A;
use crate::consts::cpu::REG_BB;
use crate::consts::cpu::REG_EB;
use crate::consts::cpu::REG_FB;
use crate::consts::cpu::REG_MAX;
use crate::consts::cpu::REG_Q;
use crate::consts::cpu::REG_Z;
use crate::consts::cpu::REG_ZERO;
use vstd::prelude::*;

verus! {

/// The register file as a value: the stored words and the two bank
/// selectors.
pub struct RegsView {
    pub regs: Seq<u16>,
    pub fbank: usize,
    pub ebank: usize,
}

/// The word that EB shows for the erasable bank selector `ebank`.
pub open spec fn spec_eb_word(ebank: usize) -> u16 {
    ((ebank & 0x7) << 8) as u16
}

/// The word that FB shows for the fixed bank selector `fbank`.
pub open spec fn spec_fb_word(fbank: usize) -> u16 {
    ((fbank & 0x1F) << 10) as u16
}

/// The word that BB shows for the two bank selectors.
pub open spec fn spec_bb_word(fbank: usize, ebank: usize) -> u16 {
    (spec_eb_word(ebank) >> 8) | spec_fb_word(fbank)
}

impl RegsView {
    /// What a read of register `bank_offset` gives.
    pub open spec fn read(self, bank_offset: usize) -> u16 {
        if bank_offset >= REG_MAX {
            0
        } else if bank_offset == REG_A || bank_offset == REG_Q {
            self.regs[bank_offset as int]
        } else if bank_offset == REG_Z {
            self.regs[bank_offset as int] & 0o7777
        } else if bank_offset == REG_ZERO {
            0
        } else if bank_offset == REG_EB {
            spec_eb_word(self.ebank)
        } else if bank_offset == REG_FB {
            spec_fb_word(self.fbank)
        } else if bank_offset == REG_BB {
            spec_bb_word(self.fbank, self.ebank)
        } else {
            self.regs[bank_offset as int] & 0o77777
        }
    }

    /// The register file after `value` is written to register `bank_offset`.
    /// BB sets both selectors, EB and FB one each; Z keeps 12 bits, A and Q
    /// all 16, any other register 15; a write to address 7 or beyond the
    /// file changes nothing.
    pub open spec fn write(self, bank_offset: usize, value: u16) -> RegsView {
        if bank_offset >= REG_MAX || bank_offset == REG_ZERO {
            self
        } else if bank_offset == REG_BB {
            RegsView {
                ebank: (value & 0x7) as usize,
                fbank: ((value & 0x7C00) >> 10) as usize,
                ..self
            }
        } else if bank_offset == REG_FB {
            RegsView { fbank: ((value & 0x7C00) >> 10) as usize, ..self }
        } else if bank_offset == REG_EB {
            RegsView { ebank: ((value & 0x0700) >> 8) as usize, ..self }
        } else if bank_offset == REG_Z {
            RegsView { regs: self.regs.update(bank_offset as int, value & 0o7777), ..self }
        } else if bank_offset == REG_A || bank_offset == REG_Q {
            RegsView { regs: self.regs.update(bank_offset as int, value), ..self }
        } else {
            RegsView { regs: self.regs.update(bank_offset as int, value & 0o77777), ..self }
        }
    }

    /// The register file with every word and both selectors 0.
    pub open spec fn cleared() -> RegsView {
        RegsView { regs: Seq::new(16, |i: int| 0u16), fbank: 0, ebank: 0 }
    }
}

pub struct AgcRegs {
    pub regs: [u16; 16],
    pub fbank: usize,
    pub ebank: usize,
}

impl View for AgcRegs {
    type V = RegsView;

    open spec fn view(&self) -> RegsView {
        RegsView { regs: self.regs@, fbank: self.fbank, ebank: self.ebank }
    }
}

impl AgcRegs {
    pub fn new() -> (r: AgcRegs)
        ensures
            r@ == RegsView::cleared(),
    {
        let r = AgcRegs { regs: [0; 16], fbank: 0, ebank: 0 };
        assert(r@.regs =~= RegsView::cleared().regs);
        r
    }

    pub fn reset(&mut self)
        ensures
            final(self)@ == RegsView::cleared(),
    {
        self.regs = [0; 16];
        self.fbank = 0;
        self.ebank = 0;
        assert(self@.regs =~= RegsView::cleared().regs);
    }

    pub fn read(&self, _bank_idx: usize, bank_offset: usize) -> (r: u16)
        ensures
            r == self@.read(bank_offset),
    {
        if bank_offset >= REG_MAX {
            0
        } else if bank_offset == REG_A || bank_offset == REG_Q {
            self.regs[bank_offset]
        } else if bank_offset == REG_Z {
            self.regs[bank_offset] & 0o7777
        } else if bank_offset == REG_ZERO {
            0
        } else if bank_offset == REG_EB {
            ((self.ebank & 0x7) << 8) as u16
        } else if bank_offset == REG_FB {
            ((self.fbank & 0x1F) << 10) as u16
        } else if bank_offset == REG_BB {
            let evalue: u16 = ((self.ebank & 0x7) << 8) as u16;
            let fvalue: u16 = ((self.fbank & 0x1F) << 10) as u16;
            (evalue >> 8) | fvalue
        } else {
            self.regs[bank_offset] & 0o77777
        }
    }

    pub fn write(&mut self, _bank_idx: usize, bank_offset: usize, value: u16)
        ensures
            final(self)@ == old(self)@.write(bank_offset, value),
    {
        if bank_offset >= REG_MAX || bank_offset == REG_ZERO {
            return ;
        }
        if bank_offset == REG_BB {
            self.ebank = (value & 0x7) as usize;
            self.fbank = ((value & 0x7C00) >> 10) as usize;
        } else if bank_offset == REG_FB {
            self.fbank = ((value & 0x7C00) >> 10) as usize;
        } else if bank_offset == REG_EB {
            self.ebank = ((value & 0x0700) >> 8) as usize;
        } else if bank_offset == REG_Z {
            self.regs[bank_offset] = value & 0o7777;
        } else if bank_offset == REG_A || bank_offset == REG_Q {
            self.regs[bank_offset] = value;
        } else {
            self.regs[bank_offset] = value & 0o77777;
        }
    }
}

/// The program counter is a 12-bit register, whatever the file holds.
pub proof fn lemma_z_is_12_bit(v: RegsView)
    ensures
        v.read(REG_Z) < 0x1000,
{
    crate::bits::lemma_and_le_u16(v.regs[REG_Z as int], 0o7777);
}

/// BB always shows the fixed bank of FB in bits 10 to 14 and the erasable
/// bank of EB in bits 0 to 2, whatever the file holds.
pub proof fn lemma_bb_mirrors_banks(v: RegsView)
    ensures
        v.read(REG_BB) == (v.read(REG_FB) & 0x7C00) | ((v.read(REG_EB) >> 8) & 0x7),
{
    let e = v.ebank;
    let f = v.fbank;
    assert((((e & 0x7) << 8) as u16 >> 8) | ((f & 0x1F) << 10) as u16 == ((((f & 0x1F) << 10)
        as u16) & 0x7C00) | (((((e & 0x7) << 8) as u16) >> 8) & 0x7)) by (bit_vector);
}

/// What a write of BB, EB or FB leaves in the three bank registers: BB sets
/// both banks and clears the bits between them; EB and FB each set their own
/// bank and leave the other.
pub proof fn lemma_bank_writes(v: RegsView, value: u16)
    ensures
        v.write(REG_BB, value).read(REG_BB) == value & 0x7C07,
        v.write(REG_BB, value).read(REG_EB) == (value & 0x7) << 8,
        v.write(REG_BB, value).read(REG_FB) == value & 0x7C00,
        v.write(REG_EB, value).read(REG_EB) == value & 0x0700,
        v.write(REG_EB, value).read(REG_FB) == v.read(REG_FB),
        v.write(REG_FB, value).read(REG_FB) == value & 0x7C00,
        v.write(REG_FB, value).read(REG_EB) == v.read(REG_EB),
{
    let e1 = (value & 0x7) as usize;
    let f1 = ((value & 0x7C00) >> 10) as usize;
    let e2 = ((value & 0x0700) >> 8) as usize;
    assert({
        &&& ((((e1 & 0x7) << 8) as u16) >> 8) | ((f1 & 0x1F) << 10) as u16 == value & 0x7C07
        &&& ((e1 & 0x7) << 8) as u16 == (value & 0x7) << 8
        &&& ((f1 & 0x1F) << 10) as u16 == value & 0x7C00
        &&& ((e2 & 0x7) << 8) as u16 == value & 0x0700
    }) by (bit_vector)
        requires
            e1 == (value & 0x7) as usize,
            f1 == ((value & 0x7C00) >> 10) as usize,
            e2 == ((value & 0x0700) >> 8) as usize,
    ;
}

} // verus!
