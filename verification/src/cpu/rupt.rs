//! Restart and interrupts: the restart sequence, which interrupt is served
//! first, and how one is taken.

use crate::consts::cpu::REG_A;
use crate::consts::cpu::REG_IR;
use crate::consts::cpu::REG_PC;
use crate::consts::cpu::REG_PC_SHADOW;
use crate::consts::cpu::RUPT_VECTOR_BASE;
use crate::consts::io::CHANNEL_CHAN12;
use crate::consts::io::CHANNEL_CHAN13;
use crate::consts::io::CHANNEL_CHAN14;
use crate::consts::io::CHANNEL_CHAN33;
use crate::consts::io::CHANNEL_CHAN34;
use crate::consts::io::CHANNEL_CHAN35;
use crate::consts::io::CHANNEL_DSALMOUT;
use crate::consts::io::CHANNEL_DSKY;
use crate::consts::io::CHANNEL_LAMPS;
use crate::consts::io::CHANNEL_PYJETS;
use crate::consts::io::CHANNEL_ROLLJETS;
use crate::cpu::AgcCpu;
use crate::cpu::AgcUnprogSeq;
use crate::cpu::CpuView;
use crate::instr::cf::pc_plus;
use crate::instr::cf::spec_pc_plus;
use crate::mem::periph::AgcIoPeriph;
use crate::utils::lemma_corrected_is_settled;
use crate::utils::spec_is_overflow;
use crate::utils::spec_overflow_correction;
use vstd::prelude::*;

verus! {

/// The lowest of the interrupts `i` to 10 that waits in `mask`, if any.
pub open spec fn lowest_rupt_from(mask: u16, i: u8) -> Option<u8>
    decreases 11 - i,
{
    if i > 10 {
        None
    } else if mask & (1u16 << i) != 0 {
        Some(i)
    } else {
        lowest_rupt_from(mask, (i + 1) as u8)
    }
}

/// The interrupt of `mask` that is served first: the one with the lowest
/// index.
pub open spec fn lowest_rupt(mask: u16) -> Option<u8> {
    lowest_rupt_from(mask, 0)
}

impl CpuView {
    /// Whether A holds an overflow.
    pub open spec fn overflowed(self) -> bool {
        spec_is_overflow(self.peek(REG_A))
    }

    /// Whether no interrupt can be taken now: after EXTEND, while
    /// interrupts are disabled or one is being served, and while A holds an
    /// overflow.
    pub open spec fn rupt_disabled(self) -> bool {
        self.ec_flag || !self.gint || self.is_irupt || self.overflowed()
    }

    /// The machine after `val` is written to channel `idx`.
    pub open spec fn out(self, idx: usize, val: u16) -> CpuView {
        CpuView { mem: self.mem.write_io(idx, val), ..self }
    }

    /// The machine after the restart lamp was lit, when the display
    /// answers `pv` for its lamps.
    #[verifier::opaque]
    pub open spec fn restart(self, pv: u16) -> CpuView {
        let at = CpuView { gint: false, ..self.jump(RUPT_VECTOR_BASE) };
        at.out(CHANNEL_LAMPS, 0o200 | at.mem.read_io(CHANNEL_LAMPS, pv))
    }

    /// The machine after a restart: the output channels are cleared, bit 11
    /// of channel 33 is cleared, no interrupt is enabled or served, the
    /// monitors start anew, and control goes to `0x800`.
    #[verifier::opaque]
    pub open spec fn goj(self, pv: u16) -> CpuView {
        let cleared = self.out(CHANNEL_PYJETS, 0).out(CHANNEL_ROLLJETS, 0).out(CHANNEL_DSKY, 0).out(
            CHANNEL_DSALMOUT,
            0,
        ).out(CHANNEL_CHAN12, 0).out(CHANNEL_CHAN13, 0).out(CHANNEL_CHAN14, 0).out(
            CHANNEL_CHAN34,
            0,
        ).out(CHANNEL_CHAN35, 0);
        let flagged = cleared.out(
            CHANNEL_CHAN33,
            cleared.mem.read_io(CHANNEL_CHAN33, 0) & 0o75777,
        );
        CpuView {
            gint: false,
            is_irupt: false,
            tc_count: 0,
            non_tc_count: 0,
            nightwatch: 0,
            nightwatch_cycles: 0,
            ruptlock_count: 0,
            ..flagged
        }.restart(pv)
    }

    /// What counts of the peripherals' answer `poll` to the question for
    /// interrupts: all of it, or nothing where no peripheral is wired.
    pub open spec fn polled(self, poll: u16) -> u16 {
        if self.mem.io.has_dsky || self.mem.io.has_downrupt {
            poll
        } else {
            0
        }
    }

    /// The machine after interrupt `i` was taken: interrupts are disabled,
    /// and one is being served; the address to come back to and the word of
    /// the instruction that was due are saved; control goes to the
    /// interrupt's vector; the interrupt no longer waits, and its cost is
    /// queued.
    #[verifier::opaque]
    pub open spec fn take_rupt(self, i: u8) -> CpuView {
        let off = CpuView { gint: false, ..self };
        let saved = off.store(REG_PC_SHADOW, spec_pc_plus(off.peek(REG_PC), 1)).store(
            REG_IR,
            off.instr_word(),
        );
        let at = CpuView { idx_val: 0, ..saved }.jump((RUPT_VECTOR_BASE + 4 * i) as u16);
        CpuView { rupt: at.rupt ^ (1u16 << i), is_irupt: true, ..at }.queue(AgcUnprogSeq::RUPT)
    }

    /// Interrupt acceptance, when the peripherals answer `poll` to the
    /// question for interrupts: the machine after it, and whether an
    /// interrupt was taken. While interrupts cannot be taken nothing is
    /// asked and nothing changes. Otherwise the peripherals' interrupts
    /// join those that wait, and the one with the lowest index is taken.
    #[verifier::opaque]
    pub open spec fn accept(self, poll: u16) -> (CpuView, bool) {
        if self.rupt_disabled() {
            (self, false)
        } else {
            let asked = CpuView { rupt: self.rupt | self.polled(poll), ..self };
            match lowest_rupt(asked.rupt) {
                Some(i) => (asked.take_rupt(i), true),
                None => (asked, false),
            }
        }
    }
}

/// The interrupt of `mask` that is served first.
pub fn lowest_interrupt(mask: u16) -> (r: Option<u8>)
    ensures
        r == lowest_rupt(mask),
        r is Some ==> r->Some_0 <= 10,
{
    let mut i: u8 = 0;
    while i <= 10
        invariant
            i <= 11,
            lowest_rupt(mask) == lowest_rupt_from(mask, i),
        decreases 11 - i,
    {
        if mask & (1u16 << i) != 0 {
            return Some(i);
        }
        i = i + 1;
    }
    None
}

impl<D: AgcIoPeriph, K: AgcIoPeriph> AgcCpu<D, K> {
    /// Sends control to the restart address, disables interrupts and
    /// lights the restart lamp.
    pub fn restart(&mut self)
        ensures
            old(self)@.ram_clean() ==> final(self)@.ram_clean(),
            exists|pv: u16| final(self)@ == #[trigger] old(self)@.restart(pv),
    {
        proof {
            reveal(CpuView::restart);
        }
        self.update_pc(RUPT_VECTOR_BASE);
        self.gint = false;
        let ghost at = self@;
        let io_val: u16 = self.read_io(CHANNEL_LAMPS);
        let ghost pv: u16 = choose|pv: u16| io_val == at.mem.read_io(CHANNEL_LAMPS, pv);
        self.write_io(CHANNEL_LAMPS, 0o200 | io_val);
        assert(self@ == old(self)@.restart(pv));
    }

    /// Restarts the machine and returns the cost of the restart.
    pub fn handle_goj(&mut self) -> (cycles: u16)
        ensures
            old(self)@.ram_clean() ==> final(self)@.ram_clean(),
            exists|pv: u16| final(self)@ == #[trigger] old(self)@.goj(pv),
            cycles == 2,
    {
        proof {
            reveal(CpuView::goj);
        }
        self.write_io(CHANNEL_PYJETS, 0);
        self.write_io(CHANNEL_ROLLJETS, 0);
        self.write_io(CHANNEL_DSKY, 0);
        self.write_io(CHANNEL_DSALMOUT, 0);
        self.write_io(CHANNEL_CHAN12, 0);
        self.write_io(CHANNEL_CHAN13, 0);
        self.write_io(CHANNEL_CHAN14, 0);
        self.write_io(CHANNEL_CHAN34, 0);
        self.write_io(CHANNEL_CHAN35, 0);

        let val: u16 = self.read_io(CHANNEL_CHAN33);
        self.write_io(CHANNEL_CHAN33, val & 0o75777);

        self.gint = false;
        self.is_irupt = false;
        self.tc_count = 0;
        self.non_tc_count = 0;
        self.nightwatch = 0;
        self.nightwatch_cycles = 0;
        self.ruptlock_count = 0;

        let ghost before = self@;
        self.restart();
        let ghost pv: u16 = choose|pv: u16| self@ == before.restart(pv);
        assert(self@ == old(self)@.goj(pv));
        2
    }

    /// Whether A holds an overflow.
    pub fn is_overflow(&self) -> (r: bool)
        ensures
            r == self@.overflowed(),
    {
        let a: u16 = self.mem.read(REG_A);
        let top: u16 = a & 0xC000;
        proof {
            lemma_corrected_is_settled(a);
        }
        top == 0x4000 || top == 0x8000
    }

    /// Whether no interrupt can be taken now.
    pub fn rupt_disabled(&self) -> (r: bool)
        ensures
            r == self@.rupt_disabled(),
    {
        self.ec_flag || !self.gint || self.is_irupt || self.is_overflow()
    }

    /// Whether an interrupt waits that can be served.
    pub fn rupt_pending(&self) -> (r: bool)
        ensures
            r == (lowest_rupt(self@.rupt) is Some),
    {
        lowest_interrupt(self.rupt).is_some()
    }

    /// Takes interrupt `i`.
    fn handle_rupt(&mut self, i: u8)
        requires
            i <= 10,
        ensures
            old(self)@.ram_clean() ==> final(self)@.ram_clean(),
            final(self)@ == old(self)@.take_rupt(i),
    {
        proof {
            reveal(CpuView::take_rupt);
        }
        self.gint = false;
        let val: u16 = pc_plus(self.read(REG_PC), 1);
        let word: u16 = self.calculate_instr_data();
        self.write(REG_PC_SHADOW, val);
        self.write(REG_IR, word);
        self.idx_val = 0;
        self.update_pc(RUPT_VECTOR_BASE + 4 * (i as u16));
        self.rupt = self.rupt ^ (1u16 << i);
        self.is_irupt = true;
        self.set_unprog_seq(AgcUnprogSeq::RUPT);
    }

    /// Takes the interrupt with the lowest index, if interrupts can be
    /// taken and one waits; says whether it did.
    pub fn accept_interrupt(&mut self) -> (taken: bool)
        ensures
            old(self)@.ram_clean() ==> final(self)@.ram_clean(),
            exists|poll: u16| (final(self)@, taken) == #[trigger] old(self)@.accept(poll),
    {
        proof {
            reveal(CpuView::accept);
        }
        if self.rupt_disabled() {
            assert((self@, false) == old(self)@.accept(0));
            return false;
        }
        let poll: u16 = self.mem.check_interrupts();
        assert(poll == old(self)@.polled(poll));
        self.rupt = self.rupt | poll;
        match lowest_interrupt(self.rupt) {
            Some(i) => {
                self.handle_rupt(i);
                assert((self@, true) == old(self)@.accept(poll));
                true
            },
            None => {
                assert((self@, false) == old(self)@.accept(poll));
                false
            },
        }
    }
}

/// A holds an overflow exactly where its bits 15 and 14 differ, and a store
/// of an SP word into A, which sign-extends the word, leaves none.
pub proof fn lemma_a_overflow(s: CpuView, value: u16)
    requires
        s.mem.wf(),
    ensures
        s.overflowed() <==> (s.peek(REG_A) & 0xC000 == 0x4000 || s.peek(REG_A) & 0xC000
            == 0x8000),
        !s.overflowed() <==> (s.peek(REG_A) & 0xC000 == 0x0000 || s.peek(REG_A) & 0xC000
            == 0xC000),
        !s.store_s15(REG_A, value).overflowed(),
        !s.store_s16(REG_A, spec_overflow_correction(value)).overflowed(),
{
    lemma_corrected_is_settled(value);
    let a = s.peek(REG_A);
    lemma_corrected_is_settled(a);
    assert((a & 0xC000 == 0x0000 || a & 0xC000 == 0xC000) <==> !(a & 0xC000 == 0x4000 || a
        & 0xC000 == 0x8000)) by (bit_vector);
}

} // verus!
