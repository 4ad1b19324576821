//! The instructions that load, store and exchange.

use crate::consts::cpu::REG_A;
use crate::consts::cpu::REG_L;
use crate::consts::cpu::REG_LR;
use crate::consts::cpu::REG_PC;
use crate::consts::cpu::REG_Z;
use crate::consts::memmap::AGC_MM_ERASABLE_END;
use crate::consts::memmap::AGC_MM_ERASABLE_START;
use crate::cpu::AgcCpu;
use crate::cpu::AgcOverflow;
use crate::cpu::CpuView;
use crate::cpu::overflow_of;
use crate::cpu::spec_overflow_of;
use crate::instr::AgcInst;
use crate::instr::arith::pair_addr;
use crate::instr::arith::pair_address;
use crate::instr::cf::pc_plus;
use crate::instr::cf::spec_pc_plus;
use crate::mem::periph::AgcIoPeriph;
use crate::utils::overflow_correction;
use crate::utils::spec_overflow_correction;
use vstd::prelude::*;

verus! {

impl CpuView {
    /// CS: A takes the complement of the word at K.
    #[verifier::opaque]
    pub open spec fn cs(self, inst: AgcInst) -> CpuView {
        let k = inst.kaddr();
        self.touch(k).store_s16(REG_A, !self.peek_s16(k)).edit(k)
    }

    /// CA: A takes the word at K.
    #[verifier::opaque]
    pub open spec fn ca(self, inst: AgcInst) -> CpuView {
        let k = inst.kaddr();
        self.touch(k).store_s16(REG_A, self.peek_s16(k)).edit(k)
    }

    /// DCS: (A, L) takes the complement of the pair at K, the lower word
    /// first.
    #[verifier::opaque]
    pub open spec fn dcs(self, inst: AgcInst) -> CpuView {
        let k = pair_addr(inst.kaddr());
        let k1 = (k + 1) as usize;
        let low = self.touch(k1).store(REG_L, !self.peek_s16(k1));
        low.touch(k).store(REG_A, !low.peek_s16(k)).edit(k1).edit(k)
    }

    /// DCA: (A, L) takes the pair at K, the lower word first.
    #[verifier::opaque]
    pub open spec fn dca(self, inst: AgcInst) -> CpuView {
        let k = pair_addr(inst.kaddr());
        let k1 = (k + 1) as usize;
        let low = self.touch(k1).store_s16(REG_L, self.peek_s16(k1));
        low.touch(k).store_s16(REG_A, low.peek_s16(k)).edit(k1).edit(k)
    }

    /// XCH: A and the word at K change places; K takes A
    /// overflow-corrected.
    #[verifier::opaque]
    pub open spec fn xch(self, inst: AgcInst) -> CpuView {
        let k = inst.kaddr_ram();
        self.touch(k).store_s16(k, spec_overflow_correction(self.peek_s16(REG_A))).store_s16(
            REG_A,
            self.peek_s16(k),
        )
    }

    /// DXCH: (A, L) and the pair at K change places, the lower words
    /// first. Where the exchange reaches Z or BB, the instruction register
    /// is fetched anew.
    #[verifier::opaque]
    pub open spec fn dxch(self, inst: AgcInst) -> CpuView {
        let k = pair_addr(inst.kaddr_ram());
        let k1 = (k + 1) as usize;
        let low = self.touch(k1).store_s16(REG_L, self.peek_s16(k1)).store_s16(
            k1,
            self.peek_s16(REG_L),
        );
        let both = low.touch(k).store_s16(REG_A, low.peek_s16(k)).store_s16(
            k,
            low.peek_s16(REG_A),
        );
        if inst.kaddr_ram() == 5 || inst.kaddr_ram() == 6 {
            CpuView {
                ir: both.peek(both.peek(REG_Z) as usize),
                ..both.touch(both.peek(REG_Z) as usize)
            }
        } else {
            both
        }
    }

    /// LXCH: L and the word at K change places.
    #[verifier::opaque]
    pub open spec fn lxch(self, inst: AgcInst) -> CpuView {
        let k = inst.kaddr_ram();
        self.touch(k).store_s16(REG_L, self.peek_s16(k)).store_s16(k, self.peek_s16(REG_L))
    }

    /// QXCH: Q and the word at K change places.
    #[verifier::opaque]
    pub open spec fn qxch(self, inst: AgcInst) -> CpuView {
        let k = inst.kaddr_ram();
        self.touch(k).store_s16(k, self.peek_s16(REG_LR)).store_s16(REG_LR, self.peek_s16(k))
    }

    /// TS: the word at K takes A as it is, in as many bits as the word
    /// holds. Where A holds an overflow, A becomes plus one or minus one by
    /// the overflow's sign, and the next instruction is skipped.
    #[verifier::opaque]
    pub open spec fn ts(self, inst: AgcInst) -> CpuView {
        let k = inst.kaddr_ram();
        let a = self.peek_s16(REG_A);
        let skipped = match spec_overflow_of(a) {
            AgcOverflow::Negative => {
                let one = self.store_s16(REG_A, 0xFFFE);
                one.jump(spec_pc_plus(one.peek(REG_PC), 1))
            },
            AgcOverflow::Positive => {
                let one = self.store_s16(REG_A, 0x0001);
                one.jump(spec_pc_plus(one.peek(REG_PC), 1))
            },
            AgcOverflow::Neither => self,
        };
        skipped.store(k, a).touch(k)
    }
}

/// Whether `k` is an address of erasable memory beyond the registers,
/// editing registers, timers and special registers.
pub open spec fn is_ram_addr(k: usize) -> bool {
    AGC_MM_ERASABLE_START <= k <= AGC_MM_ERASABLE_END
}

/// After CA, A holds the word that was at K, in S16 form, whatever the
/// edit that K then undergoes.
pub proof fn lemma_ca_loads_a(s: CpuView, inst: AgcInst)
    requires
        s.mem.wf(),
    ensures
        s.ca(inst).peek(REG_A) == s.peek_s16(inst.kaddr()),
{
    reveal(CpuView::ca);
}

/// After CS, A holds the complement of the word that was at K, in S16 form.
pub proof fn lemma_cs_loads_complement(s: CpuView, inst: AgcInst)
    requires
        s.mem.wf(),
    ensures
        s.cs(inst).peek(REG_A) == !s.peek_s16(inst.kaddr()),
        s.cs(inst).mem.wf(),
        is_ram_addr(inst.kaddr()) ==> s.cs(inst).peek_s16(inst.kaddr()) == s.peek_s16(
            inst.kaddr(),
        ),
{
    reveal(CpuView::cs);
}

/// CS of a word of erasable memory, done twice, leaves in A what it left
/// the first time: the complement of the word.
pub proof fn lemma_cs_twice_is_cs(s: CpuView, inst: AgcInst)
    requires
        s.mem.wf(),
        is_ram_addr(inst.kaddr()),
    ensures
        s.cs(inst).cs(inst).peek(REG_A) == s.cs(inst).peek(REG_A),
        s.cs(inst).cs(inst).peek(REG_A) == !s.peek_s16(inst.kaddr()),
{
    lemma_cs_loads_complement(s, inst);
    lemma_cs_loads_complement(s.cs(inst), inst);
}

/// CS of a word of erasable memory, done twice, gives A back where A held
/// the complement of that word to begin with.
pub proof fn lemma_cs_twice_restores(s: CpuView, inst: AgcInst)
    requires
        s.mem.wf(),
        is_ram_addr(inst.kaddr()),
        s.peek(REG_A) == !s.peek_s16(inst.kaddr()),
    ensures
        s.cs(inst).cs(inst).peek(REG_A) == s.peek(REG_A),
{
    lemma_cs_twice_is_cs(s, inst);
}

/// CS of A itself, done twice, gives A back: the complement undoes itself.
pub proof fn lemma_cs_of_a_twice_restores(s: CpuView, inst: AgcInst)
    requires
        s.mem.wf(),
        inst.kaddr() == REG_A,
    ensures
        s.cs(inst).cs(inst).peek(REG_A) == s.peek(REG_A),
{
    reveal(CpuView::cs);
    let a = s.peek(REG_A);
    assert(!(!a) == a) by (bit_vector);
}

pub trait AgcLoadStore {
    fn cs(&mut self, inst: &AgcInst) -> u16;

    fn ca(&mut self, inst: &AgcInst) -> u16;

    fn dcs(&mut self, inst: &AgcInst) -> u16;

    fn dca(&mut self, inst: &AgcInst) -> u16;

    fn xch(&mut self, inst: &AgcInst) -> u16;

    fn dxch(&mut self, inst: &AgcInst) -> u16;

    fn lxch(&mut self, inst: &AgcInst) -> u16;

    fn qxch(&mut self, inst: &AgcInst) -> u16;

    fn ts(&mut self, inst: &AgcInst) -> u16;
}

impl<D: AgcIoPeriph, K: AgcIoPeriph> AgcLoadStore for AgcCpu<D, K> {
    fn cs(&mut self, inst: &AgcInst) -> (cycles: u16)
        ensures
            old(self)@.ram_clean() ==> final(self)@.ram_clean(),
            final(self)@ == old(self)@.cs(*inst),
            cycles == 2,
    {
        proof {
            reveal(CpuView::cs);
        }
        let addr: usize = inst.get_kaddr();
        let val: u16 = !self.read_s16(addr);
        self.write_s16(REG_A, val);
        self.check_editing(addr);
        2
    }

    fn dcs(&mut self, inst: &AgcInst) -> (cycles: u16)
        ensures
            old(self)@.ram_clean() ==> final(self)@.ram_clean(),
            final(self)@ == old(self)@.dcs(*inst),
            cycles == 3,
    {
        proof {
            reveal(CpuView::dcs);
        }
        let k: usize = pair_address(inst.get_kaddr());
        let val_l: u16 = !self.read_s16(k + 1);
        self.write(REG_L, val_l);
        let val_a: u16 = !self.read_s16(k);
        self.write(REG_A, val_a);
        self.check_editing(k + 1);
        self.check_editing(k);
        3
    }

    fn dca(&mut self, inst: &AgcInst) -> (cycles: u16)
        ensures
            old(self)@.ram_clean() ==> final(self)@.ram_clean(),
            final(self)@ == old(self)@.dca(*inst),
            cycles == 3,
    {
        proof {
            reveal(CpuView::dca);
        }
        let k: usize = pair_address(inst.get_kaddr());
        let val_l: u16 = self.read_s16(k + 1);
        self.write_s16(REG_L, val_l);
        let val_a: u16 = self.read_s16(k);
        self.write_s16(REG_A, val_a);
        self.check_editing(k + 1);
        self.check_editing(k);
        3
    }

    fn dxch(&mut self, inst: &AgcInst) -> (cycles: u16)
        ensures
            old(self)@.ram_clean() ==> final(self)@.ram_clean(),
            final(self)@ == old(self)@.dxch(*inst),
            cycles == 3,
    {
        proof {
            reveal(CpuView::dxch);
        }
        let kaddr: usize = pair_address(inst.get_kaddr_ram());
        let l: u16 = self.read_s16(REG_L);
        let k2: u16 = self.read_s16(kaddr + 1);
        self.write_s16(REG_L, k2);
        self.write_s16(kaddr + 1, l);

        let a: u16 = self.read_s16(REG_A);
        let k1: u16 = self.read_s16(kaddr);
        self.write_s16(REG_A, k1);
        self.write_s16(kaddr, a);

        let field: usize = inst.get_kaddr_ram();
        if field == 5 || field == 6 {
            let idx: usize = self.read(REG_Z) as usize;
            self.ir = self.read(idx);
        }
        3
    }

    fn lxch(&mut self, inst: &AgcInst) -> (cycles: u16)
        ensures
            old(self)@.ram_clean() ==> final(self)@.ram_clean(),
            final(self)@ == old(self)@.lxch(*inst),
            cycles == 2,
    {
        proof {
            reveal(CpuView::lxch);
        }
        let k: usize = inst.get_kaddr_ram();
        let lval: u16 = self.read_s16(REG_L);
        let kval: u16 = self.read_s16(k);
        self.write_s16(REG_L, kval);
        self.write_s16(k, lval);
        2
    }

    fn ca(&mut self, inst: &AgcInst) -> (cycles: u16)
        ensures
            old(self)@.ram_clean() ==> final(self)@.ram_clean(),
            final(self)@ == old(self)@.ca(*inst),
            cycles == 2,
    {
        proof {
            reveal(CpuView::ca);
        }
        let addr: usize = inst.get_kaddr();
        let val: u16 = self.read_s16(addr);
        self.write_s16(REG_A, val);
        self.check_editing(addr);
        2
    }

    fn ts(&mut self, inst: &AgcInst) -> (cycles: u16)
        ensures
            old(self)@.ram_clean() ==> final(self)@.ram_clean(),
            final(self)@ == old(self)@.ts(*inst),
            cycles == 2,
    {
        proof {
            reveal(CpuView::ts);
        }
        let addr: usize = inst.get_kaddr_ram();
        let a: u16 = self.read_s16(REG_A);
        match overflow_of(a) {
            AgcOverflow::Negative => {
                self.write_s16(REG_A, 0xFFFE);
                let val: u16 = pc_plus(self.read(REG_PC), 1);
                self.update_pc(val);
            },
            AgcOverflow::Positive => {
                self.write_s16(REG_A, 0x0001);
                let val: u16 = pc_plus(self.read(REG_PC), 1);
                self.update_pc(val);
            },
            AgcOverflow::Neither => {},
        }
        self.write(addr, a);
        self.read(addr);
        2
    }

    fn qxch(&mut self, inst: &AgcInst) -> (cycles: u16)
        ensures
            old(self)@.ram_clean() ==> final(self)@.ram_clean(),
            final(self)@ == old(self)@.qxch(*inst),
            cycles == 2,
    {
        proof {
            reveal(CpuView::qxch);
        }
        let k: usize = inst.get_kaddr_ram();
        let v: u16 = self.read_s16(k);
        let v_q: u16 = self.read_s16(REG_LR);
        self.write_s16(k, v_q);
        self.write_s16(REG_LR, v);
        2
    }

    fn xch(&mut self, inst: &AgcInst) -> (cycles: u16)
        ensures
            old(self)@.ram_clean() ==> final(self)@.ram_clean(),
            final(self)@ == old(self)@.xch(*inst),
            cycles == 2,
    {
        proof {
            reveal(CpuView::xch);
        }
        let k: usize = inst.get_kaddr_ram();
        let v: u16 = self.read_s16(k);
        let v_a: u16 = self.read_s16(REG_A);
        self.write_s16(k, overflow_correction(v_a));
        self.write_s16(REG_A, v);
        2
    }
}

} // verus!
