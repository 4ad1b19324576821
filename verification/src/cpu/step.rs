//! The step of the machine: the unprogrammed sequences that wait, then one
//! instruction.

use crate::consts::cpu::REG_PC;
use crate::cpu::AgcCpu;
use crate::cpu::AgcUnprogSeq;
use crate::cpu::CpuView;
use crate::cpu::drain::drain_measure;
use crate::cpu::drain::lemma_unprog_step_drains;
use crate::cpu::PeriphAnswers;
use crate::disasm::decode;
use crate::disasm::spec_disasm;
use crate::instr::AgcInst;
use crate::instr::AgcMnem;
use crate::instr::cf::pc_plus;
use crate::instr::cf::spec_pc_plus;
use crate::mem::periph::AgcIoPeriph;
use crate::queue::unprog_len;
use crate::queue::unprog_pop;
use vstd::prelude::*;

verus! {

/// The cost of an unprogrammed sequence in memory cycles.
pub open spec fn spec_unprog_cost(seq: AgcUnprogSeq) -> u16 {
    match seq {
        AgcUnprogSeq::GOJ => 2,
        AgcUnprogSeq::TCSAJ => 2,
        AgcUnprogSeq::STORE => 2,
        AgcUnprogSeq::FETCH => 2,
        AgcUnprogSeq::RUPT => 2,
        _ => 1,
    }
}

/// The machine after one step that begins in `s`, when the peripherals'
/// answers in the course of the step are `answers`, one for each sequence or
/// instruction; `None` where the answers run out before the step ends. The
/// sequences that wait are carried out one after the other, until one ends
/// the step or none is left; then one instruction is carried out.
pub open spec fn step_from(s: CpuView, answers: Seq<PeriphAnswers>) -> Option<CpuView>
    decreases answers.len(),
{
    if answers.len() == 0 {
        None
    } else if s.unprog.len() == 0 {
        Some(s.prog_step(answers[0]))
    } else if s.unprog_step(answers[0]).1 {
        Some(s.unprog_step(answers[0]).0)
    } else {
        step_from(s.unprog_step(answers[0]).0, answers.drop_first())
    }
}

impl CpuView {
    /// One unprogrammed sequence: the machine after it, and whether the
    /// step ends with it. The sequence leaves the queue and its cost is
    /// accounted for; GOJ then restarts the machine and ends the step; after
    /// any other sequence an interrupt may be taken, which ends the step
    /// too.
    pub open spec fn unprog_step(self, ans: PeriphAnswers) -> (CpuView, bool) {
        if self.unprog.len() == 0 {
            (self, false)
        } else {
            let seq = self.unprog[0];
            let paid = CpuView {
                unprog: self.unprog.drop_first(),
                cycles: spec_unprog_cost(seq),
                ..self
            }.account();
            if seq == AgcUnprogSeq::GOJ {
                (paid.goj(ans.chan), true)
            } else {
                paid.accept(ans.poll)
            }
        }
    }

    /// One instruction. If an interrupt can be taken and one waits, it is
    /// taken instead. Otherwise the next instruction is decoded, Z moves on
    /// by one and the word there is fetched, the INDEX value is spent, the
    /// EXTEND prefix is spent unless the instruction is INDEX; then the
    /// instruction is executed and its cost accounted for.
    pub open spec fn prog_step(self, ans: PeriphAnswers) -> CpuView {
        let (asked, taken) = self.accept(ans.poll);
        if taken {
            asked
        } else {
            let inst = spec_disasm(asked.peek(REG_PC), asked.instr_word());
            let next = asked.jump(spec_pc_plus(asked.peek(REG_PC), 1));
            let ready = CpuView {
                idx_val: 0,
                ec_flag: next.ec_flag && inst.mnem == AgcMnem::INDEX,
                ..next
            };
            let (done, cycles) = ready.execute(inst, ans.chan);
            CpuView { cycles: cycles, ..done }.account()
        }
    }
}

impl<D: AgcIoPeriph, K: AgcIoPeriph> AgcCpu<D, K> {
    /// Carries out the unprogrammed sequence at the front of the queue;
    /// says whether the step ends with it.
    fn step_unprogrammed(&mut self) -> (done: bool)
        ensures
            old(self)@.ram_clean() ==> final(self)@.ram_clean(),
            exists|ans: PeriphAnswers|
                (final(self)@, done) == #[trigger] old(self)@.unprog_step(ans),
    {
        let instr: AgcUnprogSeq = match unprog_pop(&mut self.unprog) {
            Some(seq) => seq,
            None => {
                assert((self@, false) == old(self)@.unprog_step(
                    PeriphAnswers { chan: 0, poll: 0 },
                ));
                return false;
            },
        };
        self.cycles = match instr {
            AgcUnprogSeq::GOJ => 2,
            AgcUnprogSeq::TCSAJ => 2,
            AgcUnprogSeq::STORE => 2,
            AgcUnprogSeq::FETCH => 2,
            AgcUnprogSeq::RUPT => 2,
            _ => 1,
        };
        self.update_cycles();
        let ghost paid = self@;
        match instr {
            AgcUnprogSeq::GOJ => {
                self.handle_goj();
                proof {
                    let pv: u16 = choose|pv: u16| self@ == paid.goj(pv);
                    let ans = PeriphAnswers { chan: pv, poll: 0 };
                    assert((self@, true) == old(self)@.unprog_step(ans));
                }
                true
            },
            _ => {
                let taken: bool = self.accept_interrupt();
                proof {
                    let poll: u16 = choose|poll: u16| (self@, taken) == paid.accept(poll);
                    let ans = PeriphAnswers { chan: 0, poll: poll };
                    assert((self@, taken) == old(self)@.unprog_step(ans));
                }
                taken
            },
        }
    }

    /// Takes an interrupt or carries out the next instruction.
    fn step_programmed(&mut self)
        ensures
            old(self)@.ram_clean() ==> final(self)@.ram_clean(),
            exists|ans: PeriphAnswers| final(self)@ == #[trigger] old(self)@.prog_step(ans),
    {
        let taken: bool = self.accept_interrupt();
        let ghost poll: u16 = choose|poll: u16| (self@, taken) == old(self)@.accept(poll);
        if taken {
            assert(self@ == old(self)@.prog_step(PeriphAnswers { chan: 0, poll: poll }));
            return ;
        }
        let inst_data: u16 = self.calculate_instr_data();
        let addr: u16 = self.read(REG_PC);
        let i: AgcInst = decode(addr, inst_data);
        let next_pc: u16 = pc_plus(addr, 1);
        self.update_pc(next_pc);
        self.idx_val = 0;
        if self.ec_flag {
            match i.mnem {
                AgcMnem::INDEX => {},
                _ => {
                    self.ec_flag = false;
                },
            }
        }
        let ghost ready = self@;
        let cost: u16 = self.execute(&i);
        let ghost done = self@;
        let ghost pv: u16 = choose|pv: u16| (done, cost) == ready.execute(i, pv);
        self.cycles = cost;
        self.update_cycles();
        assert(self@ == old(self)@.prog_step(PeriphAnswers { chan: pv, poll: poll }));
    }

    /// One step of the machine: the unprogrammed sequences that wait are
    /// carried out, and then one instruction, unless a restart or an
    /// interrupt ends the step before. Returns the cost of what was carried
    /// out last, in memory cycles.
    pub fn step(&mut self) -> (cycles: u16)
        ensures
            old(self)@.ram_clean() ==> final(self)@.ram_clean(),
            exists|answers: Seq<PeriphAnswers>|
                #[trigger] step_from(old(self)@, answers) == Some(final(self)@),
            cycles == final(self)@.cycles,
    {
        let ghost mut used: Seq<PeriphAnswers> = Seq::empty();
        assert(forall|r: Seq<PeriphAnswers>| used + r =~= r);
        while unprog_len(&self.unprog) > 0
            invariant
                old(self)@.ram_clean() ==> self@.ram_clean(),
                forall|r: Seq<PeriphAnswers>|
                    #[trigger] step_from(old(self)@, used + r) == step_from(self@, r),
            decreases drain_measure(self@),
        {
            let ghost at = self@;
            let done: bool = self.step_unprogrammed();
            let ghost ans: PeriphAnswers = choose|ans: PeriphAnswers|
                (self@, done) == at.unprog_step(ans);
            proof {
                assert forall|r: Seq<PeriphAnswers>|
                    #[trigger] step_from(old(self)@, used.push(ans) + r) == if done {
                        Some(self@)
                    } else {
                        step_from(self@, r)
                    } by {
                    lemma_step_goes_on(old(self)@, used, ans, r, at);
                }
                if !done {
                    lemma_unprog_step_drains(at, ans);
                }
            }
            if done {
                assert(step_from(old(self)@, used.push(ans) + Seq::<PeriphAnswers>::empty())
                    == Some(self@));
                return self.cycles;
            }
            proof {
                used = used.push(ans);
            }
        }
        let ghost at = self@;
        self.step_programmed();
        proof {
            let ans: PeriphAnswers = choose|ans: PeriphAnswers| self@ == at.prog_step(ans);
            let r = seq![ans];
            assert(r[0] == ans);
            assert(step_from(at, r) == Some(self@));
            assert(step_from(old(self)@, used + r) == Some(self@));
        }
        self.cycles
    }
}

/// A step that has carried out sequences with the answers `used` goes on
/// as a step that begins where those sequences have left the machine.
pub proof fn lemma_step_goes_on(
    s: CpuView,
    used: Seq<PeriphAnswers>,
    ans: PeriphAnswers,
    rest: Seq<PeriphAnswers>,
    at: CpuView,
)
    requires
        forall|r: Seq<PeriphAnswers>| #[trigger] step_from(s, used + r) == step_from(at, r),
        at.unprog.len() > 0,
    ensures
        step_from(s, used.push(ans) + rest) == if at.unprog_step(ans).1 {
            Some(at.unprog_step(ans).0)
        } else {
            step_from(at.unprog_step(ans).0, rest)
        },
{
    let r = seq![ans] + rest;
    assert(used.push(ans) + rest =~= used + r);
    assert(r.drop_first() =~= rest);
    assert(r[0] == ans);
}

} // verus!
