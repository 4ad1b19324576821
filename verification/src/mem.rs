//! The memory of the machine and the map that routes an address to one of
//! its parts.

use crate::consts::cpu::REG_L;
use crate::consts::cpu::REG_Q;
use crate::consts::io::CHANNEL_CHAN13;
use crate::consts::io::CHANNEL_CHAN34;
use crate::consts::io::CHANNEL_CHAN35;
use crate::consts::io::CHANNEL_HISCALAR;
use crate::consts::io::CHANNEL_L;
use crate::consts::io::CHANNEL_LOSCALAR;
use crate::consts::io::CHANNEL_Q;
use crate::consts::io::CHANNEL_SUPERBNK;
use crate::consts::memmap::AGC_MM_EDIT_END;
use crate::consts::memmap::AGC_MM_ERASABLE_END;
use crate::consts::memmap::AGC_MM_FIXED_END;
use crate::consts::memmap::AGC_MM_REGS_END;
use crate::consts::memmap::AGC_MM_SPECIAL_END;
use crate::consts::memmap::AGC_MM_TIMER_END;
use crate::consts::ROM_BANK_NUM_WORDS;
use crate::consts::ROM_NUM_BANKS;
use crate::mem::edit::AgcEditRegs;
use crate::mem::io::AgcIoSpace;
use crate::mem::io::io_initial_mem;
use crate::mem::io::IoView;
use crate::mem::periph::AgcIoPeriph;
use crate::mem::periph::engines::LM_DECEND_ENGINE;
use crate::mem::periph::NoPeriph;
use crate::mem::ram::AgcRam;
use crate::mem::ram::lemma_zeroed_ram_is_clean;
use crate::mem::ram::ram_read;
use crate::mem::ram::ram_shaped;
use crate::mem::ram::ram_sign_clean;
use crate::mem::ram::ram_write;
use crate::mem::ram::ram_zeroed;
use crate::mem::regs::AgcRegs;
use crate::mem::regs::RegsView;
use crate::mem::rom::AgcRom;
use crate::mem::rom::rom_read;
use crate::mem::rom::rom_shaped;
use crate::mem::rom::rom_write;
use crate::mem::rom::rom_zeroed;
use crate::mem::rom::rope_of;
use crate::mem::special::AgcSpecialRegs;
use crate::mem::timer::AgcTimers;
use vstd::prelude::*;

pub mod edit;
pub mod io;
pub mod periph;
pub mod ram;
pub mod regs;
pub mod rom;
pub mod special;
pub mod timer;

verus! {

/// The memory as a value.
pub struct MemView {
    pub ram: Seq<Seq<u16>>,
    pub rom: Seq<Seq<u16>>,
    pub io: IoView,
    pub edit: AgcEditRegs,
    pub special: AgcSpecialRegs,
    pub timers: AgcTimers,
    pub regs: RegsView,
    /// Whether writes to fixed memory are carried out.
    pub rom_debug: bool,
    /// Whether the fixed banks 0o30 to 0o33 are replaced by 0o40 to 0o43.
    pub superbank: bool,
}

/// The fixed bank that the window shows for the selector `fbank`, or `None`
/// where the superbank leaves the selector without a bank.
pub open spec fn window_bank(fbank: usize, superbank: bool) -> Option<int> {
    if 0o30 <= fbank <= 0o33 {
        if superbank {
            Some(fbank + 0o10)
        } else {
            Some(fbank as int)
        }
    } else if 0o34 <= fbank <= 0o37 {
        if superbank {
            None
        } else {
            Some(fbank as int)
        }
    } else {
        Some(fbank as int)
    }
}

impl MemView {
    /// What a read of the address `idx` gives. Addresses up to 0o17 are the
    /// registers, up to 0o23 the editing registers, up to 0o31 the timers,
    /// up to 0o60 the special registers. The rest of erasable memory runs to
    /// 0o1777, in banks of 256 words, the fourth of which is the window on
    /// the bank that EB selects. Fixed memory runs from 0o2000 to 0o7777, in
    /// banks of 1024 words, the first of which is the window on the bank
    /// that FB and the superbank select. Beyond lies nothing, which reads 0.
    pub open spec fn read(self, idx: usize) -> u16 {
        if idx <= AGC_MM_REGS_END {
            self.regs.read(idx)
        } else if idx <= AGC_MM_EDIT_END {
            self.edit.spec_read(idx)
        } else if idx <= AGC_MM_TIMER_END {
            self.timers.spec_read(idx)
        } else if idx <= AGC_MM_SPECIAL_END {
            self.special.spec_read(0, idx)
        } else if idx <= AGC_MM_ERASABLE_END {
            if idx / 256 == 3 {
                ram_read(self.ram, self.regs.ebank as int, (idx % 256) as int)
            } else {
                ram_read(self.ram, (idx / 256) as int, (idx % 256) as int)
            }
        } else if idx <= AGC_MM_FIXED_END {
            if idx / 1024 == 1 {
                match window_bank(self.regs.fbank, self.superbank) {
                    Some(bank) => rom_read(self.rom, bank, (idx % 1024) as int),
                    None => 0,
                }
            } else {
                rom_read(self.rom, (idx / 1024) as int, (idx % 1024) as int)
            }
        } else {
            0
        }
    }

    /// The memory after `val` is written to the address `idx`. A write to
    /// fixed memory is discarded unless such writes are enabled, and then
    /// goes to the bank that FB selects, whatever the superbank.
    pub open spec fn write(self, idx: usize, val: u16) -> MemView {
        if idx <= AGC_MM_REGS_END {
            MemView { regs: self.regs.write(idx, val), ..self }
        } else if idx <= AGC_MM_EDIT_END {
            MemView { edit: self.edit.spec_write(idx, val), ..self }
        } else if idx <= AGC_MM_TIMER_END {
            MemView { timers: self.timers.spec_write(idx, val), ..self }
        } else if idx <= AGC_MM_SPECIAL_END {
            MemView { special: self.special.spec_write(idx, val), ..self }
        } else if idx <= AGC_MM_ERASABLE_END {
            if idx / 256 == 3 {
                MemView {
                    ram: ram_write(self.ram, self.regs.ebank as int, (idx % 256) as int, val),
                    ..self
                }
            } else {
                MemView {
                    ram: ram_write(self.ram, (idx / 256) as int, (idx % 256) as int, val),
                    ..self
                }
            }
        } else if idx <= AGC_MM_FIXED_END {
            if !self.rom_debug {
                self
            } else if idx / 1024 == 1 {
                MemView {
                    rom: rom_write(self.rom, self.regs.fbank as int, (idx % 1024) as int, val),
                    ..self
                }
            } else {
                MemView {
                    rom: rom_write(self.rom, (idx / 1024) as int, (idx % 1024) as int, val),
                    ..self
                }
            }
        } else {
            self
        }
    }

    /// Whether a read of channel `idx` shows what a wired peripheral
    /// answers.
    pub open spec fn answered(self, idx: usize) -> bool {
        idx != CHANNEL_L && idx != CHANNEL_Q && idx != CHANNEL_HISCALAR && idx != CHANNEL_LOSCALAR
            && self.io.answered(idx)
    }

    /// What a read of channel `idx` gives when the peripheral that owns the
    /// channel, if one is wired, answers `pv`. Channels 1 and 2 are the
    /// registers L and Q; channels 3 and 4 show bits 14 to 27 and 0 to 13 of
    /// the scaler; channel 13 shows in bit 14 whether TIME6 is enabled.
    pub open spec fn read_io(self, idx: usize, pv: u16) -> u16 {
        if idx == CHANNEL_L {
            self.regs.read(REG_L)
        } else if idx == CHANNEL_Q {
            self.regs.read(REG_Q)
        } else if idx == CHANNEL_HISCALAR {
            ((self.timers.scaler / 16384) % 16384) as u16
        } else if idx == CHANNEL_LOSCALAR {
            (self.timers.scaler % 16384) as u16
        } else if idx == CHANNEL_CHAN13 {
            if self.timers.time6_enable {
                self.io.read(idx, pv) | 0o40000
            } else {
                self.io.read(idx, pv)
            }
        } else {
            self.io.read(idx, pv)
        }
    }

    /// The memory after `value` is written to channel `idx`. Channel 7 sets
    /// the superbank from bit 6; channel 13 enables TIME6 from bit 14 and
    /// stores the rest; channels 34 and 35 note that a downlink word was
    /// written.
    pub open spec fn write_io(self, idx: usize, value: u16) -> MemView {
        if idx == CHANNEL_L {
            MemView { regs: self.regs.write(REG_L, value), ..self }
        } else if idx == CHANNEL_Q {
            MemView { regs: self.regs.write(REG_Q, value), ..self }
        } else if idx == CHANNEL_SUPERBNK {
            MemView { superbank: value & 0x40 == 0x40, io: self.io.write(idx, value), ..self }
        } else if idx == CHANNEL_CHAN13 {
            MemView {
                timers: AgcTimers { time6_enable: (value & 0o40000) == 0o40000, ..self.timers },
                io: self.io.write(idx, value & 0o37777),
                ..self
            }
        } else if idx == CHANNEL_CHAN34 {
            MemView {
                timers: self.timers.spec_downrupt_flags(1),
                io: self.io.write(idx, value),
                ..self
            }
        } else if idx == CHANNEL_CHAN35 {
            MemView {
                timers: self.timers.spec_downrupt_flags(2),
                io: self.io.write(idx, value),
                ..self
            }
        } else {
            MemView { io: self.io.write(idx, value), ..self }
        }
    }

    /// Whether the memory has the shape of the machine's: eight banks of
    /// 256 erasable words, 36 banks of 1024 fixed words, sixteen registers
    /// and 256 stored channels.
    pub open spec fn wf(self) -> bool {
        &&& ram_shaped(self.ram)
        &&& rom_shaped(self.rom)
        &&& self.regs.regs.len() == 16
        &&& self.io.mem.len() == 256
    }

    /// The memory with erasable memory and the timer registers cleared.
    pub open spec fn cleared(self) -> MemView {
        MemView { ram: ram_zeroed(), timers: self.timers.cleared(), ..self }
    }

    /// Whether the memory is as it is when a machine with the rope `rope`
    /// is switched on.
    pub open spec fn fresh(self, rope: Seq<Seq<u16>>) -> bool {
        &&& self.ram == ram_zeroed()
        &&& self.rom == rope
        &&& self.io.mem == io_initial_mem()
        &&& self.io.engines.active == LM_DECEND_ENGINE
        &&& !self.io.engines.decend_engine.enabled
        &&& self.edit == (AgcEditRegs { cyr: 0, sr: 0, cyl: 0, edop: 0 })
        &&& self.special == AgcSpecialRegs::cleared()
        &&& self.timers == AgcTimers::initial()
        &&& self.regs == RegsView::cleared()
        &&& !self.rom_debug
        &&& !self.superbank
    }
}

pub struct AgcMemoryMap<D: AgcIoPeriph, K: AgcIoPeriph> {
    pub ram: AgcRam,
    pub rom: AgcRom,
    pub io: AgcIoSpace<D, K>,
    pub edit: AgcEditRegs,
    pub special: AgcSpecialRegs,
    pub timers: AgcTimers,
    pub regs: AgcRegs,
    pub rom_debug: bool,
    pub superbank: bool,
}

impl<D: AgcIoPeriph, K: AgcIoPeriph> View for AgcMemoryMap<D, K> {
    type V = MemView;

    open spec fn view(&self) -> MemView {
        MemView {
            ram: self.ram@,
            rom: self.rom@,
            io: self.io@,
            edit: self.edit,
            special: self.special,
            timers: self.timers,
            regs: self.regs@,
            rom_debug: self.rom_debug,
            superbank: self.superbank,
        }
    }
}

impl<D: AgcIoPeriph, K: AgcIoPeriph> AgcMemoryMap<D, K> {
    /// The memory of a machine always has the machine's shape.
    pub proof fn lemma_view_wf(self)
        ensures
            self@.wf(),
    {
    }
}

impl AgcMemoryMap<NoPeriph, NoPeriph> {
    /// The memory of a machine with an empty rope and no peripherals.
    pub fn new_blank() -> (m: Self)
        ensures
            m@.fresh(rom_zeroed()),
            !m@.io.has_downrupt,
            !m@.io.has_dsky,
            ram_sign_clean(m@.ram),
    {
        proof {
            lemma_zeroed_ram_is_clean();
        }
        AgcMemoryMap {
            ram: AgcRam::new(),
            rom: AgcRom::blank(),
            io: AgcIoSpace::blank(),
            edit: AgcEditRegs::new(),
            special: AgcSpecialRegs::new(),
            timers: AgcTimers::new(),
            regs: AgcRegs::new(),
            superbank: false,
            rom_debug: false,
        }
    }
}

impl<D: AgcIoPeriph, K: AgcIoPeriph> AgcMemoryMap<D, K> {
    /// The memory of a machine with the rope `program`, wired to a downlink
    /// and a display.
    pub fn new(
        program: &[[u16; ROM_BANK_NUM_WORDS]; ROM_NUM_BANKS],
        downrupt: D,
        dsky: K,
    ) -> (m: Self)
        ensures
            m@.fresh(rope_of(*program)),
            m@.io.has_downrupt,
            m@.io.has_dsky,
            ram_sign_clean(m@.ram),
    {
        proof {
            lemma_zeroed_ram_is_clean();
        }
        AgcMemoryMap {
            ram: AgcRam::new(),
            rom: AgcRom::new(program),
            edit: AgcEditRegs::new(),
            io: AgcIoSpace::new(downrupt, dsky),
            special: AgcSpecialRegs::new(),
            timers: AgcTimers::new(),
            regs: AgcRegs::new(),
            superbank: false,
            rom_debug: false,
        }
    }

    /// Clears erasable memory and the timer registers.
    pub fn reset(&mut self)
        ensures
            final(self)@ == old(self)@.cleared(),
    {
        self.ram.reset();
        self.timers.reset();
    }

    /// Lets writes to fixed memory through from now on.
    pub fn enable_rom_write(&mut self)
        ensures
            final(self)@ == (MemView { rom_debug: true, ..old(self)@ }),
    {
        self.rom_debug = true;
    }

    /// The timers, for the caller to drive.
    pub fn fetch_timers(&mut self) -> (t: &mut AgcTimers)
        ensures
            *t == old(self)@.timers,
            final(self)@ == (MemView { timers: *final(t), ..old(self)@ }),
    {
        &mut self.timers
    }

    /// Writes `value` to channel `idx`.
    pub fn write_io(&mut self, idx: usize, value: u16)
        ensures
            final(self)@ == old(self)@.write_io(idx, value),
    {
        if idx == CHANNEL_L {
            self.regs.write(0, REG_L, value);
        } else if idx == CHANNEL_Q {
            self.regs.write(0, REG_Q, value);
        } else if idx == CHANNEL_SUPERBNK {
            if value & 0x40 == 0x40 {
                self.superbank = true;
            } else {
                self.superbank = false;
            }
            self.io.write(idx, value);
        } else if idx == CHANNEL_CHAN13 {
            self.timers.set_time6_enable((value & 0o40000) == 0o40000);
            self.io.write(idx, value & 0o37777);
        } else if idx == CHANNEL_CHAN34 {
            self.timers.set_downrupt_flags(1);
            self.io.write(idx, value);
        } else if idx == CHANNEL_CHAN35 {
            self.timers.set_downrupt_flags(2);
            self.io.write(idx, value);
        } else {
            self.io.write(idx, value);
        }
    }

    /// What a read of channel `idx` gives when the peripheral that owns the
    /// channel answers `periph`.
    pub fn channel_value(&self, idx: usize, periph: u16) -> (r: u16)
        ensures
            r == self@.read_io(idx, periph),
    {
        if idx == CHANNEL_L {
            self.regs.read(0, REG_L)
        } else if idx == CHANNEL_Q {
            self.regs.read(0, REG_Q)
        } else if idx == CHANNEL_HISCALAR {
            let result: u32 = self.timers.read_scalar();
            ((result / 16384) % 16384) as u16
        } else if idx == CHANNEL_LOSCALAR {
            let result: u32 = self.timers.read_scalar();
            (result % 16384) as u16
        } else if idx == CHANNEL_CHAN13 {
            let res: u16 = self.io.channel_value(idx, periph);
            if self.timers.get_time6_enable() {
                res | 0o40000
            } else {
                res
            }
        } else {
            self.io.channel_value(idx, periph)
        }
    }

    /// Reads channel `idx`. Where a wired peripheral owns the channel, the
    /// result is what the channel shows for the peripheral's answer,
    /// whatever that is; elsewhere the result is fixed by the memory alone.
    pub fn read_io(&mut self, idx: usize) -> (r: u16)
        ensures
            final(self)@ == old(self)@,
            exists|pv: u16| r == #[trigger] old(self)@.read_io(idx, pv),
            !old(self)@.answered(idx) ==> r == old(self)@.read_io(idx, 0),
    {
        if idx == CHANNEL_L || idx == CHANNEL_Q || idx == CHANNEL_HISCALAR || idx
            == CHANNEL_LOSCALAR {
            let r: u16 = self.channel_value(idx, 0);
            assert(r == self@.read_io(idx, 0));
            r
        } else if idx == CHANNEL_CHAN13 {
            let res: u16 = self.io.read(idx);
            let ghost pv: u16 = choose|pv: u16| res == self.io@.read(idx, pv);
            let r: u16 = if self.timers.get_time6_enable() {
                res | 0o40000
            } else {
                res
            };
            assert(r == self@.read_io(idx, pv));
            r
        } else {
            let r: u16 = self.io.read(idx);
            let ghost pv: u16 = choose|pv: u16| r == self.io@.read(idx, pv);
            assert(r == self@.read_io(idx, pv));
            r
        }
    }

    /// Writes `val` to the address `idx`.
    pub fn write(&mut self, idx: usize, val: u16)
        ensures
            final(self)@ == old(self)@.write(idx, val),
            ram_sign_clean(old(self)@.ram) ==> ram_sign_clean(final(self)@.ram),
    {
        if idx <= AGC_MM_REGS_END {
            self.regs.write(0, idx, val);
        } else if idx <= AGC_MM_EDIT_END {
            self.edit.write(0, idx, val);
        } else if idx <= AGC_MM_TIMER_END {
            self.timers.write(0, idx, val);
        } else if idx <= AGC_MM_SPECIAL_END {
            self.special.write(0, idx, val);
        } else if idx <= AGC_MM_ERASABLE_END {
            if idx / 256 == 3 {
                self.ram.write(self.regs.ebank, idx % 256, val);
            } else {
                self.ram.write(idx / 256, idx % 256, val);
            }
        } else if idx <= AGC_MM_FIXED_END {
            if !self.rom_debug {
                return ;
            }
            let bank_idx: usize = idx / 1024;
            if bank_idx == 1 {
                self.rom.write(self.regs.fbank, idx % 1024, val);
            } else {
                self.rom.write(bank_idx, idx % 1024, val);
            }
        }
    }

    /// Reads the address `idx`.
    pub fn read(&self, idx: usize) -> (r: u16)
        ensures
            r == self@.read(idx),
    {
        if idx <= AGC_MM_REGS_END {
            self.regs.read(0, idx)
        } else if idx <= AGC_MM_EDIT_END {
            self.edit.read(0, idx)
        } else if idx <= AGC_MM_TIMER_END {
            self.timers.read(0, idx)
        } else if idx <= AGC_MM_SPECIAL_END {
            self.special.read(0, idx)
        } else if idx <= AGC_MM_ERASABLE_END {
            if idx / 256 == 3 {
                self.ram.read(self.regs.ebank, idx % 256)
            } else {
                self.ram.read(idx / 256, idx % 256)
            }
        } else if idx <= AGC_MM_FIXED_END {
            if idx / 1024 == 1 {
                let fbank: usize = self.regs.fbank;
                if 0o30 <= fbank && fbank <= 0o33 {
                    if self.superbank {
                        self.rom.read(fbank + 0o10, idx % 1024)
                    } else {
                        self.rom.read(fbank, idx % 1024)
                    }
                } else if 0o34 <= fbank && fbank <= 0o37 {
                    if self.superbank {
                        0
                    } else {
                        self.rom.read(fbank, idx % 1024)
                    }
                } else {
                    self.rom.read(fbank, idx % 1024)
                }
            } else {
                self.rom.read(idx / 1024, idx % 1024)
            }
        } else {
            0
        }
    }

    /// Asks each wired peripheral for its interrupts and joins the answers
    /// bit by bit, whatever they are. A machine without peripherals has
    /// none. The memory stays as it is.
    pub fn check_interrupts(&mut self) -> (r: u16)
        ensures
            final(self)@ == old(self)@,
            exists|dsky: u16, downrupt: u16| r == #[trigger] old(self)@.io.poll(dsky, downrupt),
            !old(self)@.io.has_dsky && !old(self)@.io.has_downrupt ==> r == 0,
    {
        let ghost before = self.io@;
        let r: u16 = self.io.check_interrupt();
        proof {
            let (dsky, downrupt) = choose|dsky: u16, downrupt: u16| r == before.poll(dsky, downrupt);
            assert(r == old(self)@.io.poll(dsky, downrupt));
        }
        r
    }
}

} // verus!
