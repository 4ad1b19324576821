//! The instructions on I/O channels. Channel 2 is the 16-bit register Q and
//! is treated in 16 bits; every other channel is treated in 15 bits, with A
//! overflow-corrected on the way in and sign-extended on the way out.

use crate::consts::cpu::REG_A;
use crate::consts::io::CHANNEL_Q;
use crate::cpu::AgcCpu;
use crate::cpu::CpuView;
use crate::instr::AgcInst;
use crate::mem::periph::AgcIoPeriph;
use crate::utils::overflow_correction;
use crate::utils::sign_extend;
use crate::utils::spec_overflow_correction;
use crate::utils::spec_sign_extend;
use vstd::prelude::*;

verus! {

/// The three logical operations of the channel instructions.
#[derive(Debug, Clone, Copy, PartialEq, Eq, Structural)]
pub enum ChannelOp {
    Or,
    And,
    Xor,
}

/// The result of `op` on the words `a` and `b`.
pub open spec fn spec_channel_op(op: ChannelOp, a: u16, b: u16) -> u16 {
    match op {
        ChannelOp::Or => a | b,
        ChannelOp::And => a & b,
        ChannelOp::Xor => a ^ b,
    }
}

/// The result of `op` on the words `a` and `b`.
pub fn channel_op(op: ChannelOp, a: u16, b: u16) -> (r: u16)
    ensures
        r == spec_channel_op(op, a, b),
{
    match op {
        ChannelOp::Or => a | b,
        ChannelOp::And => a & b,
        ChannelOp::Xor => a ^ b,
    }
}

impl AgcInst {
    /// The 9-bit channel field of the word, as a channel number.
    pub open spec fn channel(self) -> usize {
        (self.data_bits() & 0x1FF) as usize
    }

    /// The 9-bit channel field of the word, as a channel number.
    pub fn get_channel(&self) -> (r: usize)
        ensures
            r == self.channel(),
    {
        (self.get_data_bits() & 0x1FF) as usize
    }
}

impl CpuView {
    /// The machine after `op` joined A with the word `io_val` read from
    /// channel `k`; the result goes to A.
    #[verifier::opaque]
    pub open spec fn channel_into_a(self, op: ChannelOp, k: usize, io_val: u16) -> CpuView {
        if k == CHANNEL_Q {
            self.store_s16(REG_A, spec_channel_op(op, self.peek_s16(REG_A), io_val))
        } else {
            self.store_s15(
                REG_A,
                spec_channel_op(op, self.peek_s15(REG_A), io_val & 0x7FFF) & 0x7FFF,
            )
        }
    }

    /// The machine after `op` joined A with the word `io_val` read from
    /// channel `k`; the result goes to A and to the channel.
    #[verifier::opaque]
    pub open spec fn channel_into_both(self, op: ChannelOp, k: usize, io_val: u16) -> CpuView {
        if k == CHANNEL_Q {
            let n = spec_channel_op(op, self.peek_s16(REG_A), io_val);
            let in_a = self.store_s16(REG_A, n);
            CpuView { mem: in_a.mem.write_io(k, n), ..in_a }
        } else {
            let n = spec_channel_op(op, self.peek_s15(REG_A), io_val & 0x7FFF);
            let in_a = self.store_s15(REG_A, n);
            CpuView { mem: in_a.mem.write_io(k, n & 0x7FFF), ..in_a }
        }
    }

    /// READ, given the word `io_val` read from the channel: A takes it,
    /// sign-extended unless the channel is Q.
    #[verifier::opaque]
    pub open spec fn read_instr_with(self, inst: AgcInst, io_val: u16) -> CpuView {
        if inst.channel() == CHANNEL_Q {
            self.store_s16(REG_A, io_val)
        } else {
            self.store_s16(REG_A, spec_sign_extend(io_val))
        }
    }

    /// WRITE: the channel takes A, overflow-corrected unless the channel
    /// is Q.
    #[verifier::opaque]
    pub open spec fn write_instr(self, inst: AgcInst) -> CpuView {
        let k = inst.channel();
        let val = self.peek_s16(REG_A);
        if k == CHANNEL_Q {
            CpuView { mem: self.mem.write_io(k, val), ..self }
        } else {
            CpuView { mem: self.mem.write_io(k, spec_overflow_correction(val) & 0x7FFF), ..self }
        }
    }

    /// ROR, when the peripheral that owns the channel answers `pv`.
    #[verifier::opaque]
    pub open spec fn ror(self, inst: AgcInst, pv: u16) -> CpuView {
        self.channel_into_a(
            ChannelOp::Or,
            inst.channel(),
            self.mem.read_io(inst.channel(), pv),
        )
    }

    /// RAND, when the peripheral that owns the channel answers `pv`.
    #[verifier::opaque]
    pub open spec fn rand(self, inst: AgcInst, pv: u16) -> CpuView {
        self.channel_into_a(
            ChannelOp::And,
            inst.channel(),
            self.mem.read_io(inst.channel(), pv),
        )
    }

    /// RXOR, when the peripheral that owns the channel answers `pv`.
    #[verifier::opaque]
    pub open spec fn rxor(self, inst: AgcInst, pv: u16) -> CpuView {
        self.channel_into_a(
            ChannelOp::Xor,
            inst.channel(),
            self.mem.read_io(inst.channel(), pv),
        )
    }

    /// WOR, when the peripheral that owns the channel answers `pv`.
    #[verifier::opaque]
    pub open spec fn wor(self, inst: AgcInst, pv: u16) -> CpuView {
        self.channel_into_both(
            ChannelOp::Or,
            inst.channel(),
            self.mem.read_io(inst.channel(), pv),
        )
    }

    /// WAND, when the peripheral that owns the channel answers `pv`.
    #[verifier::opaque]
    pub open spec fn wand(self, inst: AgcInst, pv: u16) -> CpuView {
        self.channel_into_both(
            ChannelOp::And,
            inst.channel(),
            self.mem.read_io(inst.channel(), pv),
        )
    }

    /// READ, when the peripheral that owns the channel answers `pv`.
    #[verifier::opaque]
    pub open spec fn read_instr(self, inst: AgcInst, pv: u16) -> CpuView {
        self.read_instr_with(inst, self.mem.read_io(inst.channel(), pv))
    }
}

impl<D: AgcIoPeriph, K: AgcIoPeriph> AgcCpu<D, K> {
    /// Joins A with the word `io_val` read from channel `k` and puts the
    /// result in A.
    pub fn op_into_a(&mut self, op: ChannelOp, k: usize, io_val: u16)
        ensures
            old(self)@.ram_clean() ==> final(self)@.ram_clean(),
            final(self)@ == old(self)@.channel_into_a(op, k, io_val),
    {
        proof {
            reveal(CpuView::channel_into_a);
        }
        if k == CHANNEL_Q {
            let val: u16 = channel_op(op, self.read_s16(REG_A), io_val);
            self.write_s16(REG_A, val);
        } else {
            let n: u16 = channel_op(op, self.read_s15(REG_A), io_val & 0x7FFF);
            self.write_s15(REG_A, n & 0x7FFF);
        }
    }

    /// Joins A with the word `io_val` read from channel `k` and puts the
    /// result in A and in the channel.
    pub fn op_into_both(&mut self, op: ChannelOp, k: usize, io_val: u16)
        ensures
            old(self)@.ram_clean() ==> final(self)@.ram_clean(),
            final(self)@ == old(self)@.channel_into_both(op, k, io_val),
    {
        proof {
            reveal(CpuView::channel_into_both);
        }
        if k == CHANNEL_Q {
            let n: u16 = channel_op(op, self.read_s16(REG_A), io_val);
            self.write_s16(REG_A, n);
            self.write_io(k, n);
        } else {
            let n: u16 = channel_op(op, self.read_s15(REG_A), io_val & 0x7FFF);
            self.write_s15(REG_A, n);
            self.write_io(k, n & 0x7FFF);
        }
    }

    /// Puts the word `io_val` read from the channel of `inst` in A.
    pub fn take_channel_word(&mut self, inst: &AgcInst, io_val: u16)
        ensures
            old(self)@.ram_clean() ==> final(self)@.ram_clean(),
            final(self)@ == old(self)@.read_instr_with(*inst, io_val),
    {
        proof {
            reveal(CpuView::read_instr_with);
        }
        if inst.get_channel() == CHANNEL_Q {
            self.write_s16(REG_A, io_val);
        } else {
            self.write_s16(REG_A, sign_extend(io_val));
        }
    }
}

pub trait AgcIo {
    fn ror(&mut self, inst: &AgcInst) -> u16;

    fn rand(&mut self, inst: &AgcInst) -> u16;

    fn wor(&mut self, inst: &AgcInst) -> u16;

    fn wand(&mut self, inst: &AgcInst) -> u16;

    fn read_instr(&mut self, inst: &AgcInst) -> u16;

    fn write_instr(&mut self, inst: &AgcInst) -> u16;

    fn rxor(&mut self, inst: &AgcInst) -> u16;
}

impl<D: AgcIoPeriph, K: AgcIoPeriph> AgcIo for AgcCpu<D, K> {
    fn ror(&mut self, inst: &AgcInst) -> (cycles: u16)
        ensures
            old(self)@.ram_clean() ==> final(self)@.ram_clean(),
            exists|pv: u16| final(self)@ == #[trigger] old(self)@.ror(*inst, pv),
            cycles == 2,
    {
        proof {
            reveal(CpuView::ror);
        }
        let k: usize = inst.get_channel();
        let io_val: u16 = self.read_io(k);
        let ghost pv: u16 = choose|pv: u16| io_val == old(self)@.mem.read_io(k, pv);
        self.op_into_a(ChannelOp::Or, k, io_val);
        assert(self@ == old(self)@.ror(*inst, pv));
        2
    }

    fn rand(&mut self, inst: &AgcInst) -> (cycles: u16)
        ensures
            old(self)@.ram_clean() ==> final(self)@.ram_clean(),
            exists|pv: u16| final(self)@ == #[trigger] old(self)@.rand(*inst, pv),
            cycles == 2,
    {
        proof {
            reveal(CpuView::rand);
        }
        let k: usize = inst.get_channel();
        let io_val: u16 = self.read_io(k);
        let ghost pv: u16 = choose|pv: u16| io_val == old(self)@.mem.read_io(k, pv);
        self.op_into_a(ChannelOp::And, k, io_val);
        assert(self@ == old(self)@.rand(*inst, pv));
        2
    }

    fn rxor(&mut self, inst: &AgcInst) -> (cycles: u16)
        ensures
            old(self)@.ram_clean() ==> final(self)@.ram_clean(),
            exists|pv: u16| final(self)@ == #[trigger] old(self)@.rxor(*inst, pv),
            cycles == 2,
    {
        proof {
            reveal(CpuView::rxor);
        }
        let k: usize = inst.get_channel();
        let io_val: u16 = self.read_io(k);
        let ghost pv: u16 = choose|pv: u16| io_val == old(self)@.mem.read_io(k, pv);
        self.op_into_a(ChannelOp::Xor, k, io_val);
        assert(self@ == old(self)@.rxor(*inst, pv));
        2
    }

    fn wor(&mut self, inst: &AgcInst) -> (cycles: u16)
        ensures
            old(self)@.ram_clean() ==> final(self)@.ram_clean(),
            exists|pv: u16| final(self)@ == #[trigger] old(self)@.wor(*inst, pv),
            cycles == 2,
    {
        proof {
            reveal(CpuView::wor);
        }
        let k: usize = inst.get_channel();
        let io_val: u16 = self.read_io(k);
        let ghost pv: u16 = choose|pv: u16| io_val == old(self)@.mem.read_io(k, pv);
        self.op_into_both(ChannelOp::Or, k, io_val);
        assert(self@ == old(self)@.wor(*inst, pv));
        2
    }

    fn wand(&mut self, inst: &AgcInst) -> (cycles: u16)
        ensures
            old(self)@.ram_clean() ==> final(self)@.ram_clean(),
            exists|pv: u16| final(self)@ == #[trigger] old(self)@.wand(*inst, pv),
            cycles == 2,
    {
        proof {
            reveal(CpuView::wand);
        }
        let k: usize = inst.get_channel();
        let io_val: u16 = self.read_io(k);
        let ghost pv: u16 = choose|pv: u16| io_val == old(self)@.mem.read_io(k, pv);
        self.op_into_both(ChannelOp::And, k, io_val);
        assert(self@ == old(self)@.wand(*inst, pv));
        2
    }

    fn read_instr(&mut self, inst: &AgcInst) -> (cycles: u16)
        ensures
            old(self)@.ram_clean() ==> final(self)@.ram_clean(),
            exists|pv: u16| final(self)@ == #[trigger] old(self)@.read_instr(*inst, pv),
            cycles == 2,
    {
        proof {
            reveal(CpuView::read_instr);
        }
        let k: usize = inst.get_channel();
        let io_val: u16 = self.read_io(k);
        let ghost pv: u16 = choose|pv: u16| io_val == old(self)@.mem.read_io(k, pv);
        self.take_channel_word(inst, io_val);
        assert(self@ == old(self)@.read_instr(*inst, pv));
        2
    }

    fn write_instr(&mut self, inst: &AgcInst) -> (cycles: u16)
        ensures
            old(self)@.ram_clean() ==> final(self)@.ram_clean(),
            final(self)@ == old(self)@.write_instr(*inst),
            cycles == 2,
    {
        proof {
            reveal(CpuView::write_instr);
        }
        let k: usize = inst.get_channel();
        let val: u16 = self.read_s16(REG_A);
        if k == CHANNEL_Q {
            self.write_io(k, val);
        } else {
            self.write_io(k, overflow_correction(val) & 0x7FFF);
        }
        2
    }
}

} // verus!
