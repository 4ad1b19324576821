//! The dispatch of one decoded instruction to the function that carries it
//! out.

use crate::cpu::AgcCpu;
use crate::cpu::CpuView;
use crate::instr::AgcInst;
use crate::instr::AgcMnem;
use crate::instr::arith::AgcArith;
use crate::instr::cf::AgcControlFlow;
use crate::instr::intrpt::AgcInterrupt;
use crate::instr::io::AgcIo;
use crate::instr::ldst::AgcLoadStore;
use crate::instr::logic::AgcLogic;
use crate::mem::periph::AgcIoPeriph;
use crate::utils::s15_add;
use crate::utils::spec_s15_add;
use vstd::prelude::*;

verus! {

/// The count after `count`; the largest count stays.
pub open spec fn spec_bump(count: u32) -> u32 {
    if count < u32::MAX {
        (count + 1) as u32
    } else {
        count
    }
}

impl CpuView {
    /// The word of the next instruction: the instruction register with the
    /// INDEX value added, and the EXTEND prefix in bit 15.
    pub open spec fn instr_word(self) -> u16 {
        if self.ec_flag {
            spec_s15_add(self.ir, self.idx_val) | 0x8000
        } else {
            spec_s15_add(self.ir, self.idx_val)
        }
    }

    /// The machine after the TC trap has counted an instruction `mnem`.
    pub open spec fn count_instr(self, mnem: AgcMnem) -> CpuView {
        if mnem == AgcMnem::TC || mnem == AgcMnem::TCF {
            CpuView { non_tc_count: 0, tc_count: spec_bump(self.tc_count), ..self }
        } else {
            CpuView { tc_count: 0, non_tc_count: spec_bump(self.non_tc_count), ..self }
        }
    }

    /// INDEX: the word at K will be added to the next instruction.
    pub open spec fn index(self, inst: AgcInst) -> CpuView {
        let k = inst.data_bits() as usize;
        let bits = if inst.extended() {
            k
        } else {
            (inst.data_bits() & 0o1777) as usize
        };
        CpuView { idx_val: self.peek(k), ..self.touch(k) }.edit(bits)
    }

    /// EXTEND: the next instruction is an extended one.
    pub open spec fn extend(self) -> CpuView {
        CpuView { ec_flag: true, idx_val: 0, ..self }
    }

    /// A word that names no operation: nothing is done.
    pub open spec fn invalid(self) -> CpuView {
        CpuView { ec_flag: false, idx_val: 0, ..self }
    }

    /// The machine after the instruction `inst`, and the instruction's cost
    /// in memory cycles, when the peripheral that owns the channel of a
    /// channel instruction answers `pv`.
    #[verifier::opaque]
    pub open spec fn execute(self, inst: AgcInst, pv: u16) -> (CpuView, u16) {
        let s = self.count_instr(inst.mnem);
        match inst.mnem {
            AgcMnem::AD => (s.ad(inst), 2u16),
            AgcMnem::ADS => (s.ads(inst), 2u16),
            AgcMnem::AUG => (s.aug(inst), 2u16),
            AgcMnem::BZF => (
                s.bzf(inst),
                if s.bzf_taken() {
                    1u16
                } else {
                    2u16
                },
            ),
            AgcMnem::BZMF => (
                s.bzmf(inst),
                if !Self::bzmf_encoded(inst) {
                    0u16
                } else if s.bzmf_taken() {
                    1u16
                } else {
                    2u16
                },
            ),
            AgcMnem::CA => (s.ca(inst), 2u16),
            AgcMnem::CCS => (s.ccs(inst), 2u16),
            AgcMnem::CS => (s.cs(inst), 2u16),
            AgcMnem::DAS => (s.das(inst), 3u16),
            AgcMnem::DCA => (s.dca(inst), 3u16),
            AgcMnem::DCS => (s.dcs(inst), 3u16),
            AgcMnem::DIM => (s.dim(inst), 2u16),
            AgcMnem::DXCH => (s.dxch(inst), 3u16),
            AgcMnem::DV => (s.dv(inst), 6u16),
            AgcMnem::EDRUPT => (s.edrupt(), 3u16),
            AgcMnem::EXTEND => (s.extend(), 1u16),
            AgcMnem::INCR => (s.incr(inst), 2u16),
            AgcMnem::INDEX => (s.index(inst), 2u16),
            AgcMnem::INHINT => (s.inhint(), 1u16),
            AgcMnem::LXCH => (s.lxch(inst), 2u16),
            AgcMnem::MASK => (s.mask(inst), 2u16),
            AgcMnem::MP => (s.mp(inst), 3u16),
            AgcMnem::MSU => (s.msu(inst), 2u16),
            AgcMnem::QXCH => (s.qxch(inst), 2u16),
            AgcMnem::RELINT => (s.relint(), 1u16),
            AgcMnem::RESUME => (s.resume(), 2u16),
            AgcMnem::ROR => (s.ror(inst, pv), 2u16),
            AgcMnem::RAND => (s.rand(inst, pv), 2u16),
            AgcMnem::READ => (s.read_instr(inst, pv), 2u16),
            AgcMnem::RXOR => (s.rxor(inst, pv), 2u16),
            AgcMnem::SU => (s.su(inst), 2u16),
            AgcMnem::TC => (s.tc(inst), 1u16),
            AgcMnem::TCF => (s.tcf(inst), 1u16),
            AgcMnem::TS => (s.ts(inst), 2u16),
            AgcMnem::WAND => (s.wand(inst, pv), 2u16),
            AgcMnem::WOR => (s.wor(inst, pv), 2u16),
            AgcMnem::WRITE => (s.write_instr(inst), 2u16),
            AgcMnem::XCH => (s.xch(inst), 2u16),
            AgcMnem::INVALID => (s.invalid(), 1u16),
        }
    }
}

/// The count after `count`; the largest count stays.
fn bump(count: u32) -> (r: u32)
    ensures
        r == spec_bump(count),
{
    if count < u32::MAX {
        count + 1
    } else {
        count
    }
}

impl<D: AgcIoPeriph, K: AgcIoPeriph> AgcCpu<D, K> {
    /// The word of the next instruction.
    pub fn calculate_instr_data(&self) -> (r: u16)
        ensures
            r == self@.instr_word(),
    {
        let inst_data: u16 = s15_add(self.ir, self.idx_val);
        if self.ec_flag {
            inst_data | 0x8000
        } else {
            inst_data
        }
    }

    /// Executes the instruction `inst` and returns its cost in memory
    /// cycles.
    #[verifier::rlimit(60)]
    pub fn execute(&mut self, inst: &AgcInst) -> (cycles: u16)
        ensures
            old(self)@.ram_clean() ==> final(self)@.ram_clean(),
            exists|pv: u16| (final(self)@, cycles) == #[trigger] old(self)@.execute(*inst, pv),
    {
        proof {
            reveal(CpuView::execute);
        }
        match inst.mnem {
            AgcMnem::TC | AgcMnem::TCF => {
                self.non_tc_count = 0;
                self.tc_count = bump(self.tc_count);
            },
            _ => {
                self.tc_count = 0;
                self.non_tc_count = bump(self.non_tc_count);
            },
        }
        let ghost s = self@;
        assert(s == old(self)@.count_instr(inst.mnem));
        let cycles: u16 = match inst.mnem {
            AgcMnem::AD => self.ad(inst),
            AgcMnem::ADS => self.ads(inst),
            AgcMnem::AUG => self.aug(inst),
            AgcMnem::BZF => self.bzf(inst),
            AgcMnem::BZMF => self.bzmf(inst),
            AgcMnem::CA => self.ca(inst),
            AgcMnem::CCS => self.ccs(inst),
            AgcMnem::CS => self.cs(inst),
            AgcMnem::DAS => self.das(inst),
            AgcMnem::DCA => self.dca(inst),
            AgcMnem::DCS => self.dcs(inst),
            AgcMnem::DIM => self.dim(inst),
            AgcMnem::DXCH => self.dxch(inst),
            AgcMnem::DV => self.dv(inst),
            AgcMnem::EDRUPT => self.edrupt(inst),
            AgcMnem::EXTEND => {
                self.ec_flag = true;
                self.idx_val = 0x0;
                1
            },
            AgcMnem::INCR => self.incr(inst),
            AgcMnem::INDEX => {
                let bits: u16 = if inst.is_extended() {
                    inst.get_data_bits()
                } else {
                    inst.get_data_bits() & 0o1777
                };
                self.idx_val = self.read(inst.get_data_bits() as usize);
                self.check_editing(bits as usize);
                2
            },
            AgcMnem::INHINT => self.inhint(inst),
            AgcMnem::LXCH => self.lxch(inst),
            AgcMnem::MASK => self.mask(inst),
            AgcMnem::MP => self.mp(inst),
            AgcMnem::MSU => self.msu(inst),
            AgcMnem::QXCH => self.qxch(inst),
            AgcMnem::RELINT => self.relint(inst),
            AgcMnem::RESUME => self.resume(inst),
            AgcMnem::ROR => self.ror(inst),
            AgcMnem::RAND => self.rand(inst),
            AgcMnem::READ => self.read_instr(inst),
            AgcMnem::RXOR => self.rxor(inst),
            AgcMnem::SU => self.su(inst),
            AgcMnem::TC => self.tc(inst),
            AgcMnem::TCF => self.tcf(inst),
            AgcMnem::TS => self.ts(inst),
            AgcMnem::WAND => self.wand(inst),
            AgcMnem::WOR => self.wor(inst),
            AgcMnem::WRITE => self.write_instr(inst),
            AgcMnem::XCH => self.xch(inst),
            AgcMnem::INVALID => {
                self.ec_flag = false;
                self.idx_val = 0x0;
                1
            },
        };
        proof {
            let pv: u16 = match inst.mnem {
                AgcMnem::ROR => choose|pv: u16| self@ == s.ror(*inst, pv),
                AgcMnem::RAND => choose|pv: u16| self@ == s.rand(*inst, pv),
                AgcMnem::READ => choose|pv: u16| self@ == s.read_instr(*inst, pv),
                AgcMnem::RXOR => choose|pv: u16| self@ == s.rxor(*inst, pv),
                AgcMnem::WAND => choose|pv: u16| self@ == s.wand(*inst, pv),
                AgcMnem::WOR => choose|pv: u16| self@ == s.wor(*inst, pv),
                _ => 0u16,
            };
            assert((self@, cycles) == old(self)@.execute(*inst, pv));
        }
        cycles
    }
}

} // verus!
