//! A machine without peripherals asks nobody, so it steps in one way only:
//! what a step leaves does not depend on the answers that the step is
//! given.

use crate::cpu::CpuView;
use crate::cpu::PeriphAnswers;
use crate::cpu::step::step_from;
use crate::instr::AgcInst;
use crate::mem::MemView;
use vstd::prelude::*;

verus! {

impl CpuView {
    /// Whether no peripheral is wired to the machine.
    pub open spec fn alone(self) -> bool {
        !self.mem.io.has_dsky && !self.mem.io.has_downrupt
    }
}

/// A read of a channel that no wired peripheral owns does not depend on
/// what a peripheral would answer.
pub proof fn lemma_unanswered_channel(m: MemView, idx: usize, pv1: u16, pv2: u16)
    requires
        !m.answered(idx),
    ensures
        m.read_io(idx, pv1) == m.read_io(idx, pv2),
{
}

/// An instruction of a machine without peripherals does not depend on
/// what a peripheral would answer.
pub proof fn lemma_alone_execute(s: CpuView, inst: AgcInst, pv1: u16, pv2: u16)
    requires
        s.alone(),
    ensures
        s.execute(inst, pv1) == s.execute(inst, pv2),
{
    reveal(CpuView::execute);
    reveal(CpuView::ror);
    reveal(CpuView::rand);
    reveal(CpuView::rxor);
    reveal(CpuView::wor);
    reveal(CpuView::wand);
    reveal(CpuView::read_instr);
    let at = s.count_instr(inst.mnem);
    lemma_unanswered_channel(at.mem, inst.channel(), pv1, pv2);
}

/// A restart of a machine without peripherals does not depend on what a
/// peripheral would answer, and leaves the machine without peripherals.
pub proof fn lemma_alone_goj(s: CpuView, pv1: u16, pv2: u16)
    requires
        s.alone(),
    ensures
        s.goj(pv1) == s.goj(pv2),
        s.goj(pv1).alone(),
{
    reveal(CpuView::goj);
    reveal(CpuView::restart);
}

/// Interrupt acceptance of a machine without peripherals does not depend
/// on what a peripheral would answer, and leaves the machine without
/// peripherals.
pub proof fn lemma_alone_accept(s: CpuView, poll1: u16, poll2: u16)
    requires
        s.alone(),
    ensures
        s.accept(poll1) == s.accept(poll2),
        s.accept(poll1).0.alone(),
{
    reveal(CpuView::accept);
    reveal(CpuView::take_rupt);
}

/// The accounting of a cost leaves a machine without peripherals so.
pub proof fn lemma_alone_account(s: CpuView)
    requires
        s.alone(),
    ensures
        s.account().alone(),
{
    reveal(CpuView::account);
}

/// An unprogrammed sequence or an instruction of a machine without
/// peripherals does not depend on the answers given; a sequence leaves the
/// machine without peripherals.
pub proof fn lemma_alone_one_way(s: CpuView, a1: PeriphAnswers, a2: PeriphAnswers)
    requires
        s.alone(),
    ensures
        s.unprog_step(a1) == s.unprog_step(a2),
        s.unprog_step(a1).0.alone(),
        s.prog_step(a1) == s.prog_step(a2),
{
    if s.unprog.len() > 0 {
        let seq = s.unprog[0];
        let popped = CpuView {
            unprog: s.unprog.drop_first(),
            cycles: crate::cpu::step::spec_unprog_cost(seq),
            ..s
        };
        lemma_alone_account(popped);
        lemma_alone_goj(popped.account(), a1.chan, a2.chan);
        lemma_alone_accept(popped.account(), a1.poll, a2.poll);
    }
    lemma_alone_accept(s, a1.poll, a2.poll);
    let asked = s.accept(a1.poll).0;
    let inst = crate::disasm::spec_disasm(
        asked.peek(crate::consts::cpu::REG_PC),
        asked.instr_word(),
    );
    let next = asked.jump(
        crate::instr::cf::spec_pc_plus(asked.peek(crate::consts::cpu::REG_PC), 1),
    );
    let ready = CpuView {
        idx_val: 0,
        ec_flag: next.ec_flag && inst.mnem == crate::instr::AgcMnem::INDEX,
        ..next
    };
    lemma_alone_execute(ready, inst, a1.chan, a2.chan);
}

/// A step of a machine without peripherals leaves the same machine,
/// whatever answers it is given.
pub proof fn lemma_alone_step_one_way(
    s: CpuView,
    answers1: Seq<PeriphAnswers>,
    answers2: Seq<PeriphAnswers>,
)
    requires
        s.alone(),
        step_from(s, answers1) is Some,
        step_from(s, answers2) is Some,
    ensures
        step_from(s, answers1) == step_from(s, answers2),
    decreases answers1.len(),
{
    lemma_alone_one_way(s, answers1[0], answers2[0]);
    if s.unprog.len() > 0 && !s.unprog_step(answers1[0]).1 {
        lemma_alone_step_one_way(
            s.unprog_step(answers1[0]).0,
            answers1.drop_first(),
            answers2.drop_first(),
        );
    }
}

} // verus!
