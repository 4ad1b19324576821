//! The logical instruction on memory.

use crate::consts::cpu::REG_A;
use crate::consts::cpu::REG_Q;
use crate::cpu::AgcCpu;
use crate::cpu::CpuView;
use crate::cpu::is_wide_addr;
use crate::instr::AgcInst;
use crate::mem::periph::AgcIoPeriph;
use vstd::prelude::*;

verus! {

impl CpuView {
    /// MASK: A becomes the bitwise AND of A and the word at K: of all 16
    /// bits where K is A or Q, else of the overflow-corrected A and the
    /// 15-bit word, sign-extended.
    #[verifier::opaque]
    pub open spec fn mask(self, inst: AgcInst) -> CpuView {
        let k = inst.kaddr();
        if is_wide_addr(k) {
            self.touch(k).store_s16(REG_A, self.peek_s16(REG_A) & self.peek_s16(k))
        } else {
            self.touch(k).store_s15(
                REG_A,
                (self.peek_s15(REG_A) & (self.peek_s15(k) & 0x7FFF)) & 0x7FFF,
            )
        }
    }
}

pub trait AgcLogic {
    fn mask(&mut self, inst: &AgcInst) -> u16;
}

impl<D: AgcIoPeriph, K: AgcIoPeriph> AgcLogic for AgcCpu<D, K> {
    fn mask(&mut self, inst: &AgcInst) -> (cycles: u16)
        ensures
            old(self)@.ram_clean() ==> final(self)@.ram_clean(),
            final(self)@ == old(self)@.mask(*inst),
            cycles == 2,
    {
        proof {
            reveal(CpuView::mask);
        }
        let k: usize = inst.get_kaddr();
        if k == REG_A || k == REG_Q {
            let val: u16 = self.read_s16(k);
            let a: u16 = self.read_s16(REG_A);
            self.write_s16(REG_A, a & val);
        } else {
            let val: u16 = self.read_s15(k);
            let a: u16 = self.read_s15(REG_A);
            let n: u16 = a & (val & 0x7FFF);
            self.write_s15(REG_A, n & 0x7FFF);
        }
        2
    }
}

} // verus!
