//! The instructions that govern interrupts.

use crate::consts::cpu::REG_IR;
use crate::consts::cpu::REG_PC;
use crate::consts::cpu::REG_PC_SHADOW;
use crate::cpu::AgcCpu;
use crate::cpu::CpuView;
use crate::instr::AgcInst;
use crate::mem::periph::AgcIoPeriph;
use vstd::prelude::*;

verus! {

/// The word before `w`, in 16 bits.
pub open spec fn spec_word_before(w: u16) -> u16 {
    if w == 0 {
        0xFFFFu16
    } else {
        (w - 1) as u16
    }
}

impl CpuView {
    /// INHINT: interrupts are disabled.
    #[verifier::opaque]
    pub open spec fn inhint(self) -> CpuView {
        CpuView { gint: false, ..self }
    }

    /// RELINT: interrupts are enabled.
    #[verifier::opaque]
    pub open spec fn relint(self) -> CpuView {
        CpuView { gint: true, ..self }
    }

    /// EDRUPT: interrupts are disabled.
    #[verifier::opaque]
    pub open spec fn edrupt(self) -> CpuView {
        CpuView { gint: false, ..self }
    }

    /// RESUME: control goes back to where the interrupt was taken. Z
    /// takes its saved word less one, the instruction register its saved
    /// word; interrupts are enabled and none is being served.
    #[verifier::opaque]
    pub open spec fn resume(self) -> CpuView {
        let back = self.store(REG_PC, spec_word_before(self.peek(REG_PC_SHADOW)));
        CpuView { ir: back.peek(REG_IR), idx_val: 0, gint: true, is_irupt: false, ..back }
    }
}

pub trait AgcInterrupt {
    fn inhint(&mut self, inst: &AgcInst) -> u16;

    fn relint(&mut self, inst: &AgcInst) -> u16;

    fn edrupt(&mut self, inst: &AgcInst) -> u16;

    fn resume(&mut self, inst: &AgcInst) -> u16;
}

impl<D: AgcIoPeriph, K: AgcIoPeriph> AgcInterrupt for AgcCpu<D, K> {
    fn inhint(&mut self, _inst: &AgcInst) -> (cycles: u16)
        ensures
            old(self)@.ram_clean() ==> final(self)@.ram_clean(),
            final(self)@ == old(self)@.inhint(),
            cycles == 1,
    {
        proof {
            reveal(CpuView::inhint);
        }
        self.gint = false;
        1
    }

    fn relint(&mut self, _inst: &AgcInst) -> (cycles: u16)
        ensures
            old(self)@.ram_clean() ==> final(self)@.ram_clean(),
            final(self)@ == old(self)@.relint(),
            cycles == 1,
    {
        proof {
            reveal(CpuView::relint);
        }
        self.gint = true;
        1
    }

    fn edrupt(&mut self, _inst: &AgcInst) -> (cycles: u16)
        ensures
            old(self)@.ram_clean() ==> final(self)@.ram_clean(),
            final(self)@ == old(self)@.edrupt(),
            cycles == 3,
    {
        proof {
            reveal(CpuView::edrupt);
        }
        self.gint = false;
        3
    }

    fn resume(&mut self, _inst: &AgcInst) -> (cycles: u16)
        ensures
            old(self)@.ram_clean() ==> final(self)@.ram_clean(),
            final(self)@ == old(self)@.resume(),
            cycles == 2,
    {
        proof {
            reveal(CpuView::resume);
        }
        let saved: u16 = self.read(REG_PC_SHADOW);
        let val: u16 = if saved == 0 {
            0xFFFF
        } else {
            saved - 1
        };
        self.write(REG_PC, val);
        self.ir = self.read(REG_IR);
        self.idx_val = 0;
        self.gint = true;
        self.is_irupt = false;
        2
    }
}

} // verus!
