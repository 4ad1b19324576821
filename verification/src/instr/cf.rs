//! The instructions that direct control: transfers, branches and the
//! four-way skip.

use crate::consts::cpu::REG_A;
use crate::consts::cpu::REG_LR;
use crate::consts::cpu::REG_PC;
use crate::cpu::AgcCpu;
use crate::cpu::CpuView;
use crate::instr::AgcInst;
use crate::mem::periph::AgcIoPeriph;
use vstd::prelude::*;

verus! {

/// The address `n` words after `pc`, in the 12 bits of Z.
pub open spec fn spec_pc_plus(pc: u16, n: u16) -> u16 {
    ((pc + n) % 0x1000) as u16
}

/// The address `n` words after `pc`, in the 12 bits of Z.
pub fn pc_plus(pc: u16, n: u16) -> (r: u16)
    ensures
        r == spec_pc_plus(pc, n),
{
    ((pc as u32 + n as u32) % 0x1000) as u16
}

/// Which way CCS goes for the S16 word `a`: how many words it skips, and
/// what it leaves in A. A positive word skips none and leaves the word less
/// one; plus zero skips one; a negative word skips two and leaves its
/// magnitude, which is `0xFFFF` less the word, less one; minus zero skips
/// three; both zeros leave zero.
pub open spec fn spec_ccs(a: u16) -> (u16, u16) {
    if a == 0o000000 {
        (1u16, 0u16)
    } else if a == 0o177777 {
        (3u16, 0u16)
    } else if a <= 0o077777 {
        (0u16, (a - 1) as u16)
    } else {
        (2u16, (0xFFFE - a) as u16)
    }
}

/// Which way CCS goes for the S16 word `a`.
pub fn ccs_branch(a: u16) -> (r: (u16, u16))
    ensures
        r == spec_ccs(a),
{
    if a == 0o000000 {
        (1, 0)
    } else if a == 0o177777 {
        (3, 0)
    } else if a <= 0o077777 {
        (0, a - 1)
    } else {
        let mag: u16 = a ^ 0xFFFF;
        assert(mag == 0xFFFF - a) by (bit_vector)
            requires
                mag == a ^ 0xFFFF,
        ;
        (2, mag - 1)
    }
}

impl CpuView {
    /// TCF: control goes to K.
    #[verifier::opaque]
    pub open spec fn tcf(self, inst: AgcInst) -> CpuView {
        CpuView { ec_flag: false, ..self.jump(inst.data_bits()) }
    }

    /// Whether BZF branches: A is plus or minus zero.
    pub open spec fn bzf_taken(self) -> bool {
        self.peek(REG_A) == 0 || self.peek(REG_A) == 0xFFFF
    }

    /// BZF: control goes to K where A is zero.
    #[verifier::opaque]
    pub open spec fn bzf(self, inst: AgcInst) -> CpuView {
        if self.bzf_taken() {
            CpuView { ec_flag: false, ..self }.jump(inst.data_bits() & 0xFFF)
        } else {
            CpuView { ec_flag: false, ..self }
        }
    }

    /// Whether the address field of BZMF names fixed memory, as it must.
    pub open spec fn bzmf_encoded(inst: AgcInst) -> bool {
        inst.data_bits() & 0xC00 != 0x000
    }

    /// Whether BZMF branches: A is zero or negative, which includes a
    /// negative overflow.
    pub open spec fn bzmf_taken(self) -> bool {
        !(0x0000 < self.peek_s16(REG_A) < 0x8000)
    }

    /// BZMF: control goes to K where A is zero or negative.
    #[verifier::opaque]
    pub open spec fn bzmf(self, inst: AgcInst) -> CpuView {
        if !Self::bzmf_encoded(inst) || !self.bzmf_taken() {
            self
        } else {
            CpuView { ec_flag: false, ..self.jump(inst.data_bits()) }
        }
    }

    /// CCS: A takes the magnitude of the word at K less one, and control
    /// skips up to three words by the sign of that word.
    #[verifier::opaque]
    pub open spec fn ccs(self, inst: AgcInst) -> CpuView {
        let pc = self.peek(REG_PC);
        let k = inst.kaddr_ram();
        let (skip, a) = spec_ccs(self.peek_s16(k));
        self.touch(k).jump(spec_pc_plus(pc, skip)).store(REG_A, a).edit(k)
    }

    /// TC: control goes to K, and Q takes the address to come back to.
    #[verifier::opaque]
    pub open spec fn tc(self, inst: AgcInst) -> CpuView {
        CpuView {
            ec_flag: false,
            ..self.jump(inst.data_bits()).store(REG_LR, self.peek(REG_PC))
        }
    }
}

/// After TC, Q holds what Z held before: the address to come back to.
pub proof fn lemma_tc_saves_z(s: CpuView, inst: AgcInst)
    requires
        s.mem.wf(),
    ensures
        s.tc(inst).peek(REG_LR) == s.peek(REG_PC),
        s.tc(inst).peek(REG_PC) == inst.data_bits(),
{
    reveal(CpuView::tc);
    crate::bits::lemma_and_le_u16(inst.inst_data, 0o7777);
    let k = inst.data_bits();
    assert(k & 0o7777 == k) by (bit_vector)
        requires
            k <= 0o7777,
    ;
}

pub trait AgcControlFlow {
    fn tcf(&mut self, inst: &AgcInst) -> u16;

    fn bzf(&mut self, inst: &AgcInst) -> u16;

    fn bzmf(&mut self, inst: &AgcInst) -> u16;

    fn ccs(&mut self, inst: &AgcInst) -> u16;

    fn tc(&mut self, inst: &AgcInst) -> u16;
}

impl<D: AgcIoPeriph, K: AgcIoPeriph> AgcControlFlow for AgcCpu<D, K> {
    fn bzf(&mut self, inst: &AgcInst) -> (cycles: u16)
        ensures
            old(self)@.ram_clean() ==> final(self)@.ram_clean(),
            final(self)@ == old(self)@.bzf(*inst),
            cycles == if old(self)@.bzf_taken() {
                1u16
            } else {
                2u16
            },
    {
        proof {
            reveal(CpuView::bzf);
        }
        self.ec_flag = false;
        let a: u16 = self.read(REG_A);
        if a == 0 || a == 0xFFFF {
            let next_addr: u16 = inst.get_data_bits() & 0xFFF;
            self.update_pc(next_addr);
            1
        } else {
            2
        }
    }

    fn tcf(&mut self, inst: &AgcInst) -> (cycles: u16)
        ensures
            old(self)@.ram_clean() ==> final(self)@.ram_clean(),
            final(self)@ == old(self)@.tcf(*inst),
            cycles == 1,
    {
        proof {
            reveal(CpuView::tcf);
        }
        let next_addr: u16 = inst.get_data_bits();
        self.update_pc(next_addr);
        self.ec_flag = false;
        1
    }

    fn bzmf(&mut self, inst: &AgcInst) -> (cycles: u16)
        ensures
            old(self)@.ram_clean() ==> final(self)@.ram_clean(),
            final(self)@ == old(self)@.bzmf(*inst),
            cycles == if !CpuView::bzmf_encoded(*inst) {
                0u16
            } else if old(self)@.bzmf_taken() {
                1u16
            } else {
                2u16
            },
    {
        proof {
            reveal(CpuView::bzmf);
        }
        let k: u16 = inst.get_data_bits();
        if k & 0xC00 == 0x000 {
            return 0;
        }
        let a: u16 = self.read_s16(REG_A);
        if a > 0x0000 && a < 0x8000 {
            2
        } else {
            self.update_pc(k);
            self.ec_flag = false;
            1
        }
    }

    fn ccs(&mut self, inst: &AgcInst) -> (cycles: u16)
        ensures
            old(self)@.ram_clean() ==> final(self)@.ram_clean(),
            final(self)@ == old(self)@.ccs(*inst),
            cycles == 2,
    {
        proof {
            reveal(CpuView::ccs);
        }
        let pc: u16 = self.read(REG_PC);
        let k: usize = inst.get_kaddr_ram();
        let a: u16 = self.read_s16(k);
        let (skip, new_a) = ccs_branch(a);
        self.update_pc(pc_plus(pc, skip));
        self.write(REG_A, new_a);
        self.check_editing(k);
        2
    }

    fn tc(&mut self, inst: &AgcInst) -> (cycles: u16)
        ensures
            old(self)@.ram_clean() ==> final(self)@.ram_clean(),
            final(self)@ == old(self)@.tc(*inst),
            cycles == 1,
    {
        proof {
            reveal(CpuView::tc);
        }
        let k: u16 = inst.get_data_bits();
        let pc: u16 = self.read(REG_PC);
        self.update_pc(k);
        self.write(REG_LR, pc);
        self.ec_flag = false;
        1
    }
}

} // verus!
