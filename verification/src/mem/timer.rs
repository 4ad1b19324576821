//! The scaler and the timers. Instruction time drives the scaler; the
//! scaler's phases advance the timers; a timer that overflows raises its
//! interrupt. Each advance of a timer is also queued as an unprogrammed
//! sequence, which costs the program a memory cycle.

use crate::consts::cpu::RUPT_BIT_DOWNRUPT;
use crate::consts::cpu::RUPT_BIT_TIME3;
use crate::consts::cpu::RUPT_BIT_TIME4;
use crate::consts::cpu::RUPT_BIT_TIME5;
use crate::consts::cpu::RUPT_BIT_TIME6;
use crate::cpu::AgcUnprogSeq;
use crate::queue::push_unprog_seq;
use crate::queue::unprog_items;
use crate::queue::unprog_offer;
use crate::utils::sp_negative;
use vstd::prelude::*;

verus! {

pub const MM_TIME2: usize = 0o24;

pub const MM_TIME1: usize = 0o25;

pub const MM_TIME3: usize = 0o26;

pub const MM_TIME4: usize = 0o27;

pub const MM_TIME5: usize = 0o30;

pub const MM_TIME6: usize = 0o31;

/// Scaler ticks in one memory cycle.
pub const TICKS_PER_MCT: u32 = 3;

/// Scaler ticks in one step of the scaler.
pub const TICKS_PER_SCALER: u32 = 80;

/// Memory cycles between two downlink interrupts.
pub const DOWNRUPT_PERIOD: u32 = 1706;

#[allow(dead_code)]
#[derive(Debug, Clone, Copy, PartialEq, Eq, Structural)]
pub enum TimerType {
    TIME1,
    TIME2,
    TIME3,
    TIME4,
    TIME5,
    TIME6,
}

#[derive(Debug, Clone, Copy, PartialEq, Eq, Structural)]
pub struct AgcTimers {
    pub time6_enable: bool,
    /// The scaler.
    pub scaler: u32,
    /// Scaler ticks that have not yet made up a step of the scaler.
    pub scaler_mcts: u16,
    /// Memory cycles since the last downlink interrupt.
    pub downrupt: u32,
    /// Which of the two downlink words have been written: bit 0 the first,
    /// bit 1 the second.
    pub downrupt_flags: u8,
    /// TIME1 in the low 14 bits, TIME2 above them.
    pub timer1: u32,
    pub timer3: u16,
    pub timer4: u16,
    pub timer5: u16,
    pub timer6: u16,
}

/// The timers, the queue of unprogrammed sequences and the interrupts
/// raised, after the timers have moved.
pub struct TimerStep {
    pub timers: AgcTimers,
    pub queue: Seq<AgcUnprogSeq>,
    pub rupt: u16,
}

/// A 15-bit counter one count on: the count that follows `count`, and
/// whether the counter overflowed. The count after the largest positive
/// count is 0, with overflow.
pub open spec fn spec_count_up(count: u16) -> (u16, bool) {
    let next: u16 = ((count + 1) % 0x8000) as u16;
    if next == 0o40000 {
        (0u16, true)
    } else {
        (next, false)
    }
}

/// TIME6 one count nearer to zero: a negative count goes up, a positive
/// count down.
pub open spec fn spec_diminish(count: u16) -> u16 {
    if sp_negative(count) {
        ((count + 1) % 0x8000) as u16
    } else {
        (count - 1) as u16
    }
}

impl AgcTimers {
    /// The timers as they are when the machine is switched on.
    pub open spec fn initial() -> AgcTimers {
        AgcTimers {
            time6_enable: false,
            scaler: 0,
            scaler_mcts: 0,
            downrupt: 1,
            downrupt_flags: 0,
            timer1: 0,
            timer3: 0,
            timer4: 0,
            timer5: 0,
            timer6: 0,
        }
    }

    /// The timers with every timer register 0; scaler and downlink state
    /// stay.
    pub open spec fn cleared(self) -> AgcTimers {
        AgcTimers { timer1: 0, timer3: 0, timer4: 0, timer5: 0, timer6: 0, ..self }
    }

    /// What a read of the address `bank_offset` gives: TIME2 is the upper
    /// and TIME1 the lower 14 bits of the paired counter.
    pub open spec fn spec_read(self, bank_offset: usize) -> u16 {
        if bank_offset == MM_TIME2 {
            ((self.timer1 / 16384) % 16384) as u16
        } else if bank_offset == MM_TIME1 {
            (self.timer1 % 16384) as u16
        } else if bank_offset == MM_TIME3 {
            self.timer3
        } else if bank_offset == MM_TIME4 {
            self.timer4
        } else if bank_offset == MM_TIME5 {
            self.timer5
        } else if bank_offset == MM_TIME6 {
            self.timer6
        } else {
            0
        }
    }

    /// The timers after timer `timer_id` is set to `value`. Both TIME1 and
    /// TIME2 set the whole paired counter to `value`; the others keep 15
    /// bits.
    pub open spec fn spec_set(self, timer_id: TimerType, value: u16) -> AgcTimers {
        match timer_id {
            TimerType::TIME1 => AgcTimers { timer1: value as u32, ..self },
            TimerType::TIME2 => AgcTimers { timer1: value as u32, ..self },
            TimerType::TIME3 => AgcTimers { timer3: value % 0x8000, ..self },
            TimerType::TIME4 => AgcTimers { timer4: value % 0x8000, ..self },
            TimerType::TIME5 => AgcTimers { timer5: value % 0x8000, ..self },
            TimerType::TIME6 => AgcTimers { timer6: value % 0x8000, ..self },
        }
    }

    /// The timers after `value` is written to the address `bank_offset`; a
    /// write to any other address changes nothing.
    pub open spec fn spec_write(self, bank_offset: usize, value: u16) -> AgcTimers {
        if bank_offset == MM_TIME2 {
            self.spec_set(TimerType::TIME1, value)
        } else if bank_offset == MM_TIME1 {
            self.spec_set(TimerType::TIME1, value)
        } else if bank_offset == MM_TIME3 {
            self.spec_set(TimerType::TIME3, value)
        } else if bank_offset == MM_TIME4 {
            self.spec_set(TimerType::TIME4, value)
        } else if bank_offset == MM_TIME5 {
            self.spec_set(TimerType::TIME5, value)
        } else if bank_offset == MM_TIME6 {
            self.spec_set(TimerType::TIME6, value)
        } else {
            self
        }
    }

    /// The timers after the downlink words in `flags` were written: once
    /// both words are in, the flags clear and the downlink period starts
    /// anew.
    pub open spec fn spec_downrupt_flags(self, flags: u8) -> AgcTimers {
        if self.downrupt_flags | flags == 0x3 {
            AgcTimers { downrupt_flags: 0, downrupt: 0, ..self }
        } else {
            AgcTimers { downrupt_flags: self.downrupt_flags | flags, ..self }
        }
    }

    /// TIME4 one count on, and the interrupt it raises.
    pub open spec fn spec_timer4(self) -> (AgcTimers, u16) {
        let (next, over) = spec_count_up(self.timer4);
        (AgcTimers { timer4: next, ..self }, if over { RUPT_BIT_TIME4 } else { 0 })
    }

    /// TIME5 one count on, and the interrupt it raises.
    pub open spec fn spec_timer5(self) -> (AgcTimers, u16) {
        let (next, over) = spec_count_up(self.timer5);
        (AgcTimers { timer5: next, ..self }, if over { RUPT_BIT_TIME5 } else { 0 })
    }

    /// The paired TIME1/TIME2 and TIME3 one count on. A carry out of TIME1
    /// queues one more PINC, for TIME2.
    pub open spec fn spec_timer1_timer3(self, q: Seq<AgcUnprogSeq>) -> TimerStep {
        let t1: u32 = if self.timer1 == u32::MAX {
            0u32
        } else {
            (self.timer1 + 1) as u32
        };
        let q1 = if t1 % 16384 == 0 {
            unprog_offer(q, AgcUnprogSeq::PINC)
        } else {
            q
        };
        let (next, over) = spec_count_up(self.timer3);
        TimerStep {
            timers: AgcTimers { timer1: t1, timer3: next, ..self },
            queue: q1,
            rupt: if over {
                RUPT_BIT_TIME3
            } else {
                0
            },
        }
    }

    /// What the scaler's phase asks for once the scaler has moved: TIME5 at
    /// phase 0, TIME4 at phase 8, TIME1 and TIME3 at phase 16 of 32, each
    /// with its PINC.
    pub open spec fn spec_phase(self, q: Seq<AgcUnprogSeq>) -> TimerStep {
        let phase = self.scaler % 32;
        if phase == 0 {
            let (t, rupt) = self.spec_timer5();
            TimerStep { timers: t, queue: unprog_offer(q, AgcUnprogSeq::PINC), rupt: rupt }
        } else if phase == 8 {
            let (t, rupt) = self.spec_timer4();
            TimerStep { timers: t, queue: unprog_offer(q, AgcUnprogSeq::PINC), rupt: rupt }
        } else if phase == 16 {
            self.spec_timer1_timer3(
                unprog_offer(unprog_offer(q, AgcUnprogSeq::PINC), AgcUnprogSeq::PINC),
            )
        } else {
            TimerStep { timers: self, queue: q, rupt: 0 }
        }
    }

    /// What TIME6 does once the scaler has moved: nothing while it is
    /// disabled or the scaler is odd; at either zero it raises its interrupt
    /// and disables itself; otherwise it moves one count nearer to zero, with
    /// a DINC.
    pub open spec fn spec_time6(self, q: Seq<AgcUnprogSeq>) -> TimerStep {
        if !self.time6_enable || self.scaler % 2 != 0 {
            TimerStep { timers: self, queue: q, rupt: 0 }
        } else if self.timer6 == 0o77777 || self.timer6 == 0o00000 {
            TimerStep {
                timers: AgcTimers { time6_enable: false, ..self },
                queue: q,
                rupt: RUPT_BIT_TIME6,
            }
        } else {
            TimerStep {
                timers: AgcTimers { timer6: spec_diminish(self.timer6), ..self },
                queue: unprog_offer(q, AgcUnprogSeq::DINC),
                rupt: 0,
            }
        }
    }

    /// One step of the scaler: the scaler moves on by one, wrapping at 32
    /// bits, then the phase's timers move, then TIME6.
    pub open spec fn spec_scaler_step(self, q: Seq<AgcUnprogSeq>) -> TimerStep {
        let moved = AgcTimers {
            scaler: if self.scaler == u32::MAX {
                0u32
            } else {
                (self.scaler + 1) as u32
            },
            ..self
        };
        let phase = moved.spec_phase(q);
        let six = phase.timers.spec_time6(phase.queue);
        TimerStep { timers: six.timers, queue: six.queue, rupt: phase.rupt | six.rupt }
    }

    /// `n` steps of the scaler, one after the other; the interrupts of all
    /// steps are gathered.
    pub open spec fn spec_scaler_run(self, q: Seq<AgcUnprogSeq>, n: nat) -> TimerStep
        decreases n,
    {
        if n == 0 {
            TimerStep { timers: self, queue: q, rupt: 0 }
        } else {
            let before = self.spec_scaler_run(q, (n - 1) as nat);
            let last = before.timers.spec_scaler_step(before.queue);
            TimerStep { timers: last.timers, queue: last.queue, rupt: before.rupt | last.rupt }
        }
    }

    /// Whether `mcts` more memory cycles complete a downlink period.
    pub open spec fn downrupt_due(self, mcts: u16) -> bool {
        self.downrupt + mcts >= DOWNRUPT_PERIOD
    }

    /// Scaler ticks on hand once `mcts` memory cycles are added.
    pub open spec fn ticks_with(self, mcts: u16) -> int {
        self.scaler_mcts + mcts * TICKS_PER_MCT
    }

    /// The passing of `mcts` memory cycles: the downlink period runs on and
    /// raises its interrupt when complete; every 80 ticks on hand make one
    /// step of the scaler; the ticks left over are kept.
    pub open spec fn spec_pump(self, q: Seq<AgcUnprogSeq>, mcts: u16) -> TimerStep {
        let started = AgcTimers {
            downrupt: if self.downrupt_due(mcts) {
                0u32
            } else {
                (self.downrupt + mcts) as u32
            },
            ..self
        };
        let ran = started.spec_scaler_run(q, (self.ticks_with(mcts) / 80) as nat);
        TimerStep {
            timers: AgcTimers { scaler_mcts: (self.ticks_with(mcts) % 80) as u16, ..ran.timers },
            queue: ran.queue,
            rupt: (if self.downrupt_due(mcts) {
                RUPT_BIT_DOWNRUPT
            } else {
                0u16
            }) | ran.rupt,
        }
    }

    pub fn new() -> (r: Self)
        ensures
            r == Self::initial(),
    {
        Self {
            downrupt: 1,
            downrupt_flags: 0,
            time6_enable: false,
            scaler: 0,
            scaler_mcts: 0,
            timer1: 0,
            timer3: 0,
            timer4: 0,
            timer5: 0,
            timer6: 0,
        }
    }

    /// Notes that the downlink words in `flags` were written: `0x1` for the
    /// first word, `0x2` for the second.
    pub fn set_downrupt_flags(&mut self, flags: u8)
        ensures
            *final(self) == old(self).spec_downrupt_flags(flags),
    {
        self.downrupt_flags = self.downrupt_flags | flags;
        if self.downrupt_flags == 0x3 {
            self.downrupt_flags = 0x0;
            self.downrupt = 0;
        }
    }

    fn increment_scaler(&mut self, unprog: &mut heapless::Deque<AgcUnprogSeq, 8>) -> (r: u16)
        ensures
            *final(self) == old(self).spec_scaler_step(unprog_items(*old(unprog))).timers,
            unprog_items(*final(unprog)) == old(self).spec_scaler_step(
                unprog_items(*old(unprog)),
            ).queue,
            r == old(self).spec_scaler_step(unprog_items(*old(unprog))).rupt,
    {
        self.scaler = if self.scaler == u32::MAX {
            0
        } else {
            self.scaler + 1
        };
        let phase: u32 = self.scaler % 32;
        let phase_rupt: u16 = if phase == 0 {
            push_unprog_seq(unprog, AgcUnprogSeq::PINC);
            self.handle_timer5()
        } else if phase == 8 {
            push_unprog_seq(unprog, AgcUnprogSeq::PINC);
            self.handle_timer4()
        } else if phase == 16 {
            push_unprog_seq(unprog, AgcUnprogSeq::PINC);
            push_unprog_seq(unprog, AgcUnprogSeq::PINC);
            self.handle_timer1_timer3(unprog)
        } else {
            0
        };

        let mut six_rupt: u16 = 0;
        if self.time6_enable {
            if self.scaler % 2 == 0 {
                if self.timer6 == 0o77777 || self.timer6 == 0o00000 {
                    self.time6_enable = false;
                    six_rupt = RUPT_BIT_TIME6;
                } else {
                    push_unprog_seq(unprog, AgcUnprogSeq::DINC);
                    if (self.timer6 / 0x4000) % 2 == 1 {
                        self.timer6 = ((self.timer6 as u32 + 1) % 0x8000) as u16;
                    } else {
                        self.timer6 = self.timer6 - 1;
                    }
                }
            }
        }
        phase_rupt | six_rupt
    }

    /// Lets `mcts` memory cycles pass and returns the interrupts raised.
    pub fn pump_mcts(&mut self, mcts: u16, unprog: &mut heapless::Deque<AgcUnprogSeq, 8>) -> (rupt:
        u16)
        ensures
            *final(self) == old(self).spec_pump(unprog_items(*old(unprog)), mcts).timers,
            unprog_items(*final(unprog)) == old(self).spec_pump(
                unprog_items(*old(unprog)),
                mcts,
            ).queue,
            rupt == old(self).spec_pump(unprog_items(*old(unprog)), mcts).rupt,
            !old(self).time6_enable ==> final(self).timer6 == old(self).timer6,
            !old(self).time6_enable ==> !final(self).time6_enable,
    {
        let ghost start = *self;
        let ghost q0 = unprog_items(*unprog);
        let mut ticks: u32 = self.scaler_mcts as u32 + mcts as u32 * TICKS_PER_MCT;
        let due: bool = self.downrupt as u64 + mcts as u64 >= DOWNRUPT_PERIOD as u64;
        let down_rupt: u16 = if due {
            self.downrupt = 0;
            self.handle_downrupt()
        } else {
            self.downrupt = self.downrupt + mcts as u32;
            0
        };
        let ghost started = *self;
        let ghost total: nat = (ticks / 80) as nat;
        let ghost mut done: nat = 0;
        let mut scaler_rupt: u16 = 0;
        while ticks >= TICKS_PER_SCALER
            invariant
                done <= total,
                ticks == start.ticks_with(mcts) - 80 * done,
                total == (start.ticks_with(mcts) / 80) as nat,
                *self == started.spec_scaler_run(q0, done).timers,
                unprog_items(*unprog) == started.spec_scaler_run(q0, done).queue,
                scaler_rupt == started.spec_scaler_run(q0, done).rupt,
            decreases ticks,
        {
            ticks = ticks - TICKS_PER_SCALER;
            let step_rupt: u16 = self.increment_scaler(unprog);
            scaler_rupt = scaler_rupt | step_rupt;
            proof {
                done = done + 1;
            }
        }
        assert(done == total);
        self.scaler_mcts = ticks as u16;
        proof {
            if !start.time6_enable {
                lemma_time6_idle(started, q0, total);
            }
        }
        down_rupt | scaler_rupt
    }

    /// Moves TIME4 one count on and returns the interrupt it raises.
    pub fn handle_timer4(&mut self) -> (r: u16)
        ensures
            (*final(self), r) == old(self).spec_timer4(),
    {
        self.timer4 = ((self.timer4 as u32 + 1) % 0x8000) as u16;
        if self.timer4 == 0o40000 {
            self.timer4 = 0;
            return RUPT_BIT_TIME4;
        }
        0
    }

    /// Moves TIME5 one count on and returns the interrupt it raises.
    pub fn handle_timer5(&mut self) -> (r: u16)
        ensures
            (*final(self), r) == old(self).spec_timer5(),
    {
        self.timer5 = ((self.timer5 as u32 + 1) % 0x8000) as u16;
        if self.timer5 == 0o40000 {
            self.timer5 = 0;
            return RUPT_BIT_TIME5;
        }
        0
    }

    pub fn set_time6_enable(&mut self, val: bool)
        ensures
            *final(self) == (AgcTimers { time6_enable: val, ..*old(self) }),
    {
        self.time6_enable = val;
    }

    pub fn get_time6_enable(&self) -> (r: bool)
        ensures
            r == self.time6_enable,
    {
        self.time6_enable
    }

    /// The interrupt of a completed downlink period.
    pub fn handle_downrupt(&mut self) -> (r: u16)
        ensures
            *final(self) == *old(self),
            r == RUPT_BIT_DOWNRUPT,
    {
        RUPT_BIT_DOWNRUPT
    }

    /// Moves TIME1/TIME2 and TIME3 one count on and returns the interrupt
    /// raised.
    pub fn handle_timer1_timer3(&mut self, unprog: &mut heapless::Deque<AgcUnprogSeq, 8>) -> (r:
        u16)
        ensures
            *final(self) == old(self).spec_timer1_timer3(unprog_items(*old(unprog))).timers,
            unprog_items(*final(unprog)) == old(self).spec_timer1_timer3(
                unprog_items(*old(unprog)),
            ).queue,
            r == old(self).spec_timer1_timer3(unprog_items(*old(unprog))).rupt,
    {
        self.timer1 = if self.timer1 == u32::MAX {
            0
        } else {
            self.timer1 + 1
        };
        if self.timer1 % 16384 == 0o00000 {
            push_unprog_seq(unprog, AgcUnprogSeq::PINC);
        }
        self.timer3 = ((self.timer3 as u32 + 1) % 0x8000) as u16;
        if self.timer3 == 0o40000 {
            self.timer3 = 0;
            return RUPT_BIT_TIME3;
        }
        0
    }

    pub fn set_time_value(&mut self, timer_id: TimerType, value: u16)
        ensures
            *final(self) == old(self).spec_set(timer_id, value),
    {
        match timer_id {
            TimerType::TIME1 => {
                self.timer1 = value as u32;
            },
            TimerType::TIME2 => {
                self.timer1 = value as u32;
            },
            TimerType::TIME3 => {
                self.timer3 = value % 0x8000;
            },
            TimerType::TIME4 => {
                self.timer4 = value % 0x8000;
            },
            TimerType::TIME5 => {
                self.timer5 = value % 0x8000;
            },
            TimerType::TIME6 => {
                self.timer6 = value % 0x8000;
            },
        };
    }

    /// The scaler, of which HISCALAR and LOSCALAR each show 14 bits.
    pub fn read_scalar(&self) -> (r: u32)
        ensures
            r == self.scaler,
    {
        self.scaler
    }

    /// Sets every timer register to 0.
    pub fn reset(&mut self)
        ensures
            *final(self) == old(self).cleared(),
    {
        self.timer1 = 0;
        self.timer3 = 0;
        self.timer4 = 0;
        self.timer5 = 0;
        self.timer6 = 0;
    }

    pub fn read(&self, _bank_idx: usize, bank_offset: usize) -> (r: u16)
        ensures
            r == self.spec_read(bank_offset),
    {
        if bank_offset == MM_TIME2 {
            ((self.timer1 / 16384) % 16384) as u16
        } else if bank_offset == MM_TIME1 {
            (self.timer1 % 16384) as u16
        } else if bank_offset == MM_TIME3 {
            self.timer3
        } else if bank_offset == MM_TIME4 {
            self.timer4
        } else if bank_offset == MM_TIME5 {
            self.timer5
        } else if bank_offset == MM_TIME6 {
            self.timer6
        } else {
            0
        }
    }

    pub fn write(&mut self, _bank_idx: usize, bank_offset: usize, value: u16)
        ensures
            *final(self) == old(self).spec_write(bank_offset, value),
    {
        if bank_offset == MM_TIME2 {
            self.set_time_value(TimerType::TIME1, value);
        } else if bank_offset == MM_TIME1 {
            self.set_time_value(TimerType::TIME1, value);
        } else if bank_offset == MM_TIME3 {
            self.set_time_value(TimerType::TIME3, value);
        } else if bank_offset == MM_TIME4 {
            self.set_time_value(TimerType::TIME4, value);
        } else if bank_offset == MM_TIME5 {
            self.set_time_value(TimerType::TIME5, value);
        } else if bank_offset == MM_TIME6 {
            self.set_time_value(TimerType::TIME6, value);
        }
    }
}

/// While TIME6 is disabled, no number of scaler steps changes it or enables
/// it.
pub proof fn lemma_time6_idle(t: AgcTimers, q: Seq<AgcUnprogSeq>, n: nat)
    requires
        !t.time6_enable,
    ensures
        t.spec_scaler_run(q, n).timers.timer6 == t.timer6,
        !t.spec_scaler_run(q, n).timers.time6_enable,
    decreases n,
{
    if n > 0 {
        lemma_time6_idle(t, q, (n - 1) as nat);
    }
}

/// While TIME6 is disabled, no number of memory cycles changes it or enables
/// it.
pub proof fn lemma_time6_disabled_stays(t: AgcTimers, q: Seq<AgcUnprogSeq>, mcts: u16)
    requires
        !t.time6_enable,
    ensures
        t.spec_pump(q, mcts).timers.timer6 == t.timer6,
        !t.spec_pump(q, mcts).timers.time6_enable,
{
    let started = AgcTimers {
        downrupt: if t.downrupt_due(mcts) {
            0u32
        } else {
            (t.downrupt + mcts) as u32
        },
        ..t
    };
    lemma_time6_idle(started, q, (t.ticks_with(mcts) / 80) as nat);
}

} // verus!
