//! The execution core: the state of the machine beside its memory, the
//! reads and writes that instructions make, the restart monitors, interrupt
//! acceptance, and the step.

use crate::consts::cpu::NIGHTWATCH_ADDR;
use crate::consts::cpu::REG_A;
use crate::consts::cpu::REG_BB;
use crate::consts::cpu::REG_EB;
use crate::consts::cpu::REG_FB;
use crate::consts::cpu::REG_PC;
use crate::consts::cpu::REG_Q;
use crate::consts::cpu::RUPT_BIT_DOWNRUPT;
use crate::consts::cpu::RUPT_VECTOR_BASE;
use crate::consts::edit::SG_CYR;
use crate::consts::edit::SG_EDOP;
use crate::instr::arith::convert_to_dp;
use crate::instr::arith::dp_unpack;
use crate::instr::arith::spec_convert_to_dp;
use crate::instr::arith::spec_dp_unpack;
use crate::mem::AgcMemoryMap;
use crate::mem::MemView;
use crate::mem::periph::AgcIoPeriph;
use crate::mem::ram::ram_sign_clean;
use crate::mem::regs::lemma_bb_mirrors_banks;
use crate::mem::regs::lemma_z_is_12_bit;
use crate::queue::push_unprog_seq;
use crate::queue::unprog_items;
use crate::queue::unprog_new;
use crate::queue::unprog_offer;
use crate::utils::overflow_correction;
use crate::utils::sign_extend;
use crate::utils::spec_overflow_correction;
use crate::utils::spec_sign_extend;
use vstd::prelude::*;

pub mod alone;
pub mod drain;
pub mod exec;
pub mod monitor;
pub mod rupt;
pub mod step;

verus! {

/// The unprogrammed sequences: work that the machine does between
/// instructions, each at the cost of memory cycles.
#[derive(Debug, Clone, Copy, PartialEq, Eq, Structural)]
pub enum AgcUnprogSeq {
    PINC,
    PCDU,
    MINC,
    MCDU,
    DINC,
    SHINC,
    SHANC,
    INOTRD,
    INOTLD,
    FETCH,
    STORE,
    GOJ,
    TCSAJ,
    RUPT,
}

/// The overflow that an S16 word holds.
#[derive(Debug, Clone, Copy, PartialEq, Eq, Structural)]
pub enum AgcOverflow {
    Neither,
    Positive,
    Negative,
}

/// The overflow that the S16 word `a` holds: positive where bit 15 is clear
/// and bit 14 set, negative where bit 15 is set and bit 14 clear.
pub open spec fn spec_overflow_of(a: u16) -> AgcOverflow {
    if a & 0xC000 == 0x4000 {
        AgcOverflow::Positive
    } else if a & 0xC000 == 0x8000 {
        AgcOverflow::Negative
    } else {
        AgcOverflow::Neither
    }
}

/// The overflow that an S16 word holds.
pub fn overflow_of(a: u16) -> (r: AgcOverflow)
    ensures
        r == spec_overflow_of(a),
{
    let top: u16 = a & 0xC000;
    if top == 0x4000 {
        AgcOverflow::Positive
    } else if top == 0x8000 {
        AgcOverflow::Negative
    } else {
        AgcOverflow::Neither
    }
}

/// What the peripherals answer in the course of one step of the machine:
/// `chan` to the read of a channel, `poll` to the question for interrupts.
pub struct PeriphAnswers {
    pub chan: u16,
    pub poll: u16,
}

/// The machine as a value.
pub struct CpuView {
    pub mem: MemView,
    /// The word of the next instruction, before INDEX is applied.
    pub ir: u16,
    /// What INDEX adds to the next instruction.
    pub idx_val: u16,
    /// Whether the next instruction is extended.
    pub ec_flag: bool,
    /// The cost of the last instruction or sequence, in memory cycles.
    pub cycles: u16,
    /// Whether interrupts are enabled.
    pub gint: bool,
    /// Whether an interrupt is being served.
    pub is_irupt: bool,
    /// The unprogrammed sequences that wait.
    pub unprog: Seq<AgcUnprogSeq>,
    /// The interrupts that wait: bit `i` stands for interrupt `i`.
    pub rupt: u16,
    /// How often the night watchman's address was used in this window.
    pub nightwatch: u16,
    /// Memory cycles since the night watchman's window began.
    pub nightwatch_cycles: u32,
    /// Number of TC or TCF instructions in a row.
    pub tc_count: u32,
    /// Number of other instructions in a row.
    pub non_tc_count: u32,
    /// Memory cycles in a row spent serving interrupts, or, negated, spent
    /// not serving any.
    pub ruptlock_count: i32,
}

/// Whether `k` is the address of an editing register.
pub open spec fn is_edit_addr(k: usize) -> bool {
    SG_CYR <= k <= SG_EDOP
}

/// Whether `idx` is the address of one of the two 16-bit registers.
pub open spec fn is_wide_addr(idx: usize) -> bool {
    idx == REG_A || idx == REG_Q
}

impl CpuView {
    /// The word at the address `idx`.
    pub open spec fn peek(self, idx: usize) -> u16 {
        self.mem.read(idx)
    }

    /// The machine after the address `idx` was used: a use of the night
    /// watchman's address is counted.
    pub open spec fn touch(self, idx: usize) -> CpuView {
        if idx == NIGHTWATCH_ADDR && self.nightwatch < u16::MAX {
            CpuView { nightwatch: (self.nightwatch + 1) as u16, ..self }
        } else {
            self
        }
    }

    /// The machine after `val` is written to the address `idx`.
    pub open spec fn store(self, idx: usize, val: u16) -> CpuView {
        CpuView { mem: self.mem.write(idx, val), ..self.touch(idx) }
    }

    /// The word at `idx` in S16 form: A and Q as they are, any other word
    /// sign-extended.
    pub open spec fn peek_s16(self, idx: usize) -> u16 {
        if is_wide_addr(idx) {
            self.peek(idx)
        } else {
            spec_sign_extend(self.peek(idx))
        }
    }

    /// The word at `idx` in SP form: A and Q overflow-corrected, any word
    /// cut to 15 bits.
    pub open spec fn peek_s15(self, idx: usize) -> u16 {
        if is_wide_addr(idx) {
            spec_overflow_correction(self.peek(idx)) & 0x7FFF
        } else {
            self.peek(idx) & 0x7FFF
        }
    }

    /// The machine after the S16 word `value` is written to `idx`: A and Q
    /// take it as it is, any other address takes it overflow-corrected.
    pub open spec fn store_s16(self, idx: usize, value: u16) -> CpuView {
        if is_wide_addr(idx) {
            self.store(idx, value)
        } else {
            self.store(idx, spec_overflow_correction(value) & 0o77777)
        }
    }

    /// The machine after the SP word `value` is written to `idx`: A and Q
    /// take it sign-extended, any other address takes its low 15 bits.
    pub open spec fn store_s15(self, idx: usize, value: u16) -> CpuView {
        if is_wide_addr(idx) {
            self.store(idx, spec_sign_extend(value))
        } else {
            self.store(idx, value & 0o77777)
        }
    }

    /// The machine after an instruction has used the operand `k`: an
    /// editing register is written with its own word, which edits it once
    /// more.
    pub open spec fn edit(self, k: usize) -> CpuView {
        if is_edit_addr(k) {
            self.touch(k).store_s15(k, self.peek_s15(k))
        } else {
            self
        }
    }

    /// The machine after control went to `val`: Z holds `val`, and the
    /// instruction register holds the word found there.
    pub open spec fn jump(self, val: u16) -> CpuView {
        let at = self.store(REG_PC, val);
        CpuView { ir: at.peek(val as usize), ..at.touch(val as usize) }
    }

    /// The double-precision word in the pair of words at `idx` and
    /// `idx + 1`.
    pub open spec fn peek_dp(self, idx: usize) -> u32 {
        spec_convert_to_dp(self.peek_s15(idx), self.peek_s15((idx + 1) as usize))
    }

    /// The machine after the double-precision word `val` is written to the
    /// pair of words at `idx` and `idx + 1`.
    pub open spec fn store_dp(self, idx: usize, val: u32) -> CpuView {
        self.store_s15(idx, spec_dp_unpack(val).0).store_s15(
            (idx + 1) as usize,
            spec_dp_unpack(val).1,
        )
    }

    /// Whether every 15-bit cell of erasable memory has bit 15 clear.
    pub open spec fn ram_clean(self) -> bool {
        ram_sign_clean(self.mem.ram)
    }

    /// The machine after control went to the restart address with
    /// interrupts disabled.
    pub open spec fn reset(self) -> CpuView {
        CpuView { gint: false, ..self.jump(RUPT_VECTOR_BASE) }
    }

    /// The machine after `seq` is offered to the queue of unprogrammed
    /// sequences.
    pub open spec fn queue(self, seq: AgcUnprogSeq) -> CpuView {
        CpuView { unprog: unprog_offer(self.unprog, seq), ..self }
    }
}

pub struct AgcCpu<D: AgcIoPeriph, K: AgcIoPeriph> {
    pub mem: AgcMemoryMap<D, K>,
    pub ir: u16,
    pub idx_val: u16,
    pub ec_flag: bool,
    pub cycles: u16,
    pub gint: bool,
    pub is_irupt: bool,
    pub unprog: heapless::Deque<AgcUnprogSeq, 8>,
    pub rupt: u16,
    pub nightwatch: u16,
    pub nightwatch_cycles: u32,
    pub tc_count: u32,
    pub non_tc_count: u32,
    pub ruptlock_count: i32,
}

impl<D: AgcIoPeriph, K: AgcIoPeriph> View for AgcCpu<D, K> {
    type V = CpuView;

    open spec fn view(&self) -> CpuView {
        CpuView {
            mem: self.mem@,
            ir: self.ir,
            idx_val: self.idx_val,
            ec_flag: self.ec_flag,
            cycles: self.cycles,
            gint: self.gint,
            is_irupt: self.is_irupt,
            unprog: unprog_items(self.unprog),
            rupt: self.rupt,
            nightwatch: self.nightwatch,
            nightwatch_cycles: self.nightwatch_cycles,
            tc_count: self.tc_count,
            non_tc_count: self.non_tc_count,
            ruptlock_count: self.ruptlock_count,
        }
    }
}

/// In every state of the machine Z is a 12-bit word, and BB shows the fixed
/// bank of FB and the erasable bank of EB.
pub proof fn lemma_registers_always(s: CpuView)
    ensures
        s.peek(REG_PC) < 0x1000,
        s.peek(REG_BB) == (s.peek(REG_FB) & 0x7C00) | ((s.peek(REG_EB) >> 8) & 0x7),
{
    lemma_z_is_12_bit(s.mem.regs);
    lemma_bb_mirrors_banks(s.mem.regs);
}

impl<D: AgcIoPeriph, K: AgcIoPeriph> AgcCpu<D, K> {
    /// A machine with the memory `memmap`, stopped at the restart address
    /// with interrupts disabled and the downlink interrupt waiting.
    pub fn new(memmap: AgcMemoryMap<D, K>) -> (cpu: Self)
        ensures
            cpu@ == (CpuView {
                mem: memmap@,
                ir: 0,
                idx_val: 0,
                ec_flag: false,
                cycles: 0,
                gint: false,
                is_irupt: false,
                unprog: Seq::<AgcUnprogSeq>::empty(),
                rupt: RUPT_BIT_DOWNRUPT,
                nightwatch: 0,
                nightwatch_cycles: 0,
                tc_count: 0,
                non_tc_count: 0,
                ruptlock_count: 0,
            }).reset(),
    {
        let mut cpu = AgcCpu {
            mem: memmap,
            ir: 0x0,
            ec_flag: false,
            idx_val: 0x0,
            unprog: unprog_new(),
            cycles: 0,
            gint: false,
            is_irupt: false,
            rupt: RUPT_BIT_DOWNRUPT,
            nightwatch: 0,
            nightwatch_cycles: 0,
            tc_count: 0,
            non_tc_count: 0,
            ruptlock_count: 0,
        };
        cpu.reset();
        cpu
    }

    /// Sends control to the restart address and disables interrupts.
    pub fn reset(&mut self)
        ensures
            old(self)@.ram_clean() ==> final(self)@.ram_clean(),
            final(self)@ == old(self)@.reset(),
    {
        self.update_pc(RUPT_VECTOR_BASE);
        self.gint = false;
    }

    /// Sets Z to `val` and fetches the word found there.
    pub fn update_pc(&mut self, val: u16)
        ensures
            old(self)@.ram_clean() ==> final(self)@.ram_clean(),
            final(self)@ == old(self)@.jump(val),
    {
        self.write(REG_PC, val);
        self.ir = self.read(val as usize);
    }

    /// Queues an unprogrammed sequence; a full queue drops it.
    pub fn set_unprog_seq(&mut self, unprog_type: AgcUnprogSeq)
        ensures
            old(self)@.ram_clean() ==> final(self)@.ram_clean(),
            final(self)@ == old(self)@.queue(unprog_type),
    {
        push_unprog_seq(&mut self.unprog, unprog_type);
    }

    /// Lets an editing register that served as operand edit its word once
    /// more.
    pub fn check_editing(&mut self, k: usize)
        ensures
            old(self)@.ram_clean() ==> final(self)@.ram_clean(),
            final(self)@ == old(self)@.edit(k),
    {
        if k == 0o20 || k == 0o21 || k == 0o22 || k == 0o23 {
            let val: u16 = self.read_s15(k);
            self.write_s15(k, val);
        }
    }

    /// Reads the word at the address `idx`.
    pub fn read(&mut self, idx: usize) -> (r: u16)
        ensures
            old(self)@.ram_clean() ==> final(self)@.ram_clean(),
            r == old(self)@.peek(idx),
            final(self)@ == old(self)@.touch(idx),
    {
        if idx == NIGHTWATCH_ADDR && self.nightwatch < u16::MAX {
            self.nightwatch = self.nightwatch + 1;
        }
        self.mem.read(idx)
    }

    /// Reads the word at `idx` in S16 form.
    pub fn read_s16(&mut self, idx: usize) -> (r: u16)
        ensures
            old(self)@.ram_clean() ==> final(self)@.ram_clean(),
            r == old(self)@.peek_s16(idx),
            final(self)@ == old(self)@.touch(idx),
    {
        if idx == REG_A || idx == REG_Q {
            self.read(idx)
        } else {
            sign_extend(self.read(idx))
        }
    }

    /// Reads the word at `idx` in SP form.
    pub fn read_s15(&mut self, idx: usize) -> (r: u16)
        ensures
            old(self)@.ram_clean() ==> final(self)@.ram_clean(),
            r == old(self)@.peek_s15(idx),
            final(self)@ == old(self)@.touch(idx),
    {
        if idx == REG_A || idx == REG_Q {
            overflow_correction(self.read(idx)) & 0x7FFF
        } else {
            self.read(idx) & 0x7FFF
        }
    }

    /// Writes the S16 word `value` to the address `idx`.
    pub fn write_s16(&mut self, idx: usize, value: u16)
        ensures
            old(self)@.ram_clean() ==> final(self)@.ram_clean(),
            final(self)@ == old(self)@.store_s16(idx, value),
    {
        if idx == REG_A || idx == REG_Q {
            self.write(idx, value);
        } else {
            self.write(idx, overflow_correction(value) & 0o77777);
        }
    }

    /// Writes the SP word `value` to the address `idx`.
    pub fn write_s15(&mut self, idx: usize, value: u16)
        ensures
            old(self)@.ram_clean() ==> final(self)@.ram_clean(),
            final(self)@ == old(self)@.store_s15(idx, value),
    {
        if idx == REG_A || idx == REG_Q {
            self.write(idx, sign_extend(value));
        } else {
            self.write(idx, value & 0o77777);
        }
    }

    /// Writes `val` to the address `idx`.
    pub fn write(&mut self, idx: usize, val: u16)
        ensures
            old(self)@.ram_clean() ==> final(self)@.ram_clean(),
            final(self)@ == old(self)@.store(idx, val),
    {
        if idx == NIGHTWATCH_ADDR && self.nightwatch < u16::MAX {
            self.nightwatch = self.nightwatch + 1;
        }
        self.mem.write(idx, val)
    }

    /// Reads the double-precision word in the pair of words at `idx` and
    /// `idx + 1`.
    pub fn read_dp(&mut self, idx: usize) -> (r: u32)
        requires
            idx < usize::MAX,
        ensures
            old(self)@.ram_clean() ==> final(self)@.ram_clean(),
            r == old(self)@.peek_dp(idx),
            final(self)@ == old(self)@.touch(idx).touch((idx + 1) as usize),
    {
        let upper: u16 = self.read_s15(idx);
        let lower: u16 = self.read_s15(idx + 1);
        convert_to_dp(upper, lower)
    }

    /// Writes the double-precision word `val` to the pair of words at `idx`
    /// and `idx + 1`.
    pub fn write_dp(&mut self, idx: usize, val: u32)
        requires
            idx < usize::MAX,
        ensures
            old(self)@.ram_clean() ==> final(self)@.ram_clean(),
            final(self)@ == old(self)@.store_dp(idx, val),
    {
        let (upper, lower) = dp_unpack(val);
        self.write_s15(idx, upper);
        self.write_s15(idx + 1, lower);
    }

    /// Reads channel `idx`. Where a wired peripheral owns the channel, the
    /// result is what the channel shows for the peripheral's answer,
    /// whatever that is.
    pub fn read_io(&mut self, idx: usize) -> (r: u16)
        ensures
            old(self)@.ram_clean() ==> final(self)@.ram_clean(),
            final(self)@ == old(self)@,
            exists|pv: u16| r == #[trigger] old(self)@.mem.read_io(idx, pv),
            !old(self)@.mem.answered(idx) ==> r == old(self)@.mem.read_io(idx, 0),
    {
        let ghost before = self.mem@;
        let r: u16 = self.mem.read_io(idx);
        let ghost pv: u16 = choose|pv: u16| r == before.read_io(idx, pv);
        assert(r == old(self)@.mem.read_io(idx, pv));
        r
    }

    /// Writes `val` to channel `idx`.
    pub fn write_io(&mut self, idx: usize, val: u16)
        ensures
            old(self)@.ram_clean() ==> final(self)@.ram_clean(),
            final(self)@ == (CpuView { mem: old(self)@.mem.write_io(idx, val), ..old(self)@ }),
    {
        self.mem.write_io(idx, val);
    }
}

} // verus!
