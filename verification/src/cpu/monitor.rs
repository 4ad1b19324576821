//! The restart monitors and the accounting of time: what the machine does
//! with the cost of each instruction and sequence.

use crate::consts::cpu::NIGHTWATCH_TIME;
use crate::consts::cpu::RUPT_LOCK_COUNT;
use crate::consts::cpu::TCMONITOR_COUNT;
use crate::cpu::AgcCpu;
use crate::cpu::AgcUnprogSeq;
use crate::cpu::CpuView;
use crate::mem::MemView;
use crate::mem::periph::AgcIoPeriph;
use vstd::prelude::*;

verus! {

impl CpuView {
    /// The night watchman after the last cost was added to his window: at
    /// the end of a window in which his address was never used he asks for
    /// a restart, and a new window begins.
    pub open spec fn nightwatch_tick(self) -> CpuView {
        if self.nightwatch_cycles + self.cycles >= NIGHTWATCH_TIME {
            let fresh = CpuView { nightwatch_cycles: 0, nightwatch: 0, ..self };
            if self.nightwatch == 0 {
                fresh.queue(AgcUnprogSeq::GOJ)
            } else {
                fresh
            }
        } else {
            CpuView { nightwatch_cycles: (self.nightwatch_cycles + self.cycles) as u32, ..self }
        }
    }

    /// The TC trap: a run of TC and TCF, or a run without any, that has
    /// reached the limit asks for a restart, and the run counts anew.
    pub open spec fn tc_trap(self) -> CpuView {
        if self.tc_count >= TCMONITOR_COUNT {
            CpuView { tc_count: 0, ..self }.queue(AgcUnprogSeq::GOJ)
        } else if self.non_tc_count >= TCMONITOR_COUNT {
            CpuView { non_tc_count: 0, ..self }.queue(AgcUnprogSeq::GOJ)
        } else {
            self
        }
    }

    /// The balance of the rupt lock after the last cost: time spent serving
    /// an interrupt counts up from zero, time spent otherwise counts down
    /// from zero, and the balance stops moving once it is past the limit.
    pub open spec fn ruptlock_balance(self) -> i32 {
        if self.is_irupt {
            let base: i32 = if self.ruptlock_count < 0 {
                0
            } else {
                self.ruptlock_count
            };
            if base <= RUPT_LOCK_COUNT {
                (base + self.cycles) as i32
            } else {
                base
            }
        } else {
            let base: i32 = if self.ruptlock_count > 0 {
                0
            } else {
                self.ruptlock_count
            };
            if base >= -RUPT_LOCK_COUNT {
                (base - self.cycles) as i32
            } else {
                base
            }
        }
    }

    /// The rupt lock: a balance past the limit on either side asks for a
    /// restart.
    pub open spec fn ruptlock(self) -> CpuView {
        let balance = self.ruptlock_balance();
        let s = CpuView { ruptlock_count: balance, ..self };
        if balance > RUPT_LOCK_COUNT || balance < -RUPT_LOCK_COUNT {
            s.queue(AgcUnprogSeq::GOJ)
        } else {
            s
        }
    }

    /// The machine after the timers have run for the last cost: their
    /// sequences are queued and their interrupts wait.
    pub open spec fn pump(self) -> CpuView {
        let r = self.mem.timers.spec_pump(self.unprog, self.cycles);
        CpuView {
            mem: MemView { timers: r.timers, ..self.mem },
            unprog: r.queue,
            rupt: self.rupt | r.rupt,
            ..self
        }
    }

    /// The machine after the last cost has been accounted for: by the
    /// night watchman, the TC trap, the rupt lock, and the timers.
    #[verifier::opaque]
    pub open spec fn account(self) -> CpuView {
        self.nightwatch_tick().tc_trap().ruptlock().pump()
    }
}

impl<D: AgcIoPeriph, K: AgcIoPeriph> AgcCpu<D, K> {
    /// The night watchman's account of the last cost.
    fn handle_nightwatch(&mut self)
        ensures
            old(self)@.ram_clean() ==> final(self)@.ram_clean(),
            final(self)@ == old(self)@.nightwatch_tick(),
    {
        let spent: u64 = self.nightwatch_cycles as u64 + self.cycles as u64;
        if spent >= NIGHTWATCH_TIME as u64 {
            self.nightwatch_cycles = 0;
            if self.nightwatch == 0 {
                self.set_unprog_seq(AgcUnprogSeq::GOJ);
            }
            self.nightwatch = 0;
        } else {
            self.nightwatch_cycles = spent as u32;
        }
    }

    /// The TC trap's account of the last instruction.
    fn handle_tc_trap(&mut self)
        ensures
            old(self)@.ram_clean() ==> final(self)@.ram_clean(),
            final(self)@ == old(self)@.tc_trap(),
    {
        if self.tc_count >= TCMONITOR_COUNT {
            self.tc_count = 0;
            self.set_unprog_seq(AgcUnprogSeq::GOJ);
        } else if self.non_tc_count >= TCMONITOR_COUNT {
            self.non_tc_count = 0;
            self.set_unprog_seq(AgcUnprogSeq::GOJ);
        }
    }

    /// The rupt lock's account of the last cost.
    fn handle_ruptlock(&mut self)
        ensures
            old(self)@.ram_clean() ==> final(self)@.ram_clean(),
            final(self)@ == old(self)@.ruptlock(),
    {
        if self.is_irupt {
            if self.ruptlock_count < 0 {
                self.ruptlock_count = 0;
            }
            if self.ruptlock_count <= RUPT_LOCK_COUNT {
                self.ruptlock_count = self.ruptlock_count + self.cycles as i32;
            }
            if self.ruptlock_count > RUPT_LOCK_COUNT {
                self.set_unprog_seq(AgcUnprogSeq::GOJ);
            }
        } else {
            if self.ruptlock_count > 0 {
                self.ruptlock_count = 0;
            }
            if self.ruptlock_count >= -RUPT_LOCK_COUNT {
                self.ruptlock_count = self.ruptlock_count - self.cycles as i32;
            }
            if self.ruptlock_count < -RUPT_LOCK_COUNT {
                self.set_unprog_seq(AgcUnprogSeq::GOJ);
            }
        }
    }

    /// Accounts for the last cost.
    pub(crate) fn update_cycles(&mut self)
        ensures
            old(self)@.ram_clean() ==> final(self)@.ram_clean(),
            final(self)@ == old(self)@.account(),
    {
        proof {
            reveal(CpuView::account);
        }
        self.handle_nightwatch();
        self.handle_tc_trap();
        self.handle_ruptlock();
        let rupt: u16 = self.mem.timers.pump_mcts(self.cycles, &mut self.unprog);
        self.rupt = self.rupt | rupt;
    }
}

} // verus!
