//! The I/O channels. Most channels are words of storage; a few show what a
//! peripheral answers, and every write is also handed to the peripherals.

use crate::consts::io::CHANNEL_CHAN13;
use crate::consts::io::CHANNEL_CHAN30;
use crate::consts::io::CHANNEL_CHAN31;
use crate::consts::io::CHANNEL_CHAN32;
use crate::consts::io::CHANNEL_CHAN33;
use crate::consts::io::CHANNEL_CHAN34;
use crate::consts::io::CHANNEL_CHAN35;
use crate::consts::io::CHANNEL_DSKY;
use crate::consts::io::CHANNEL_HISCALAR;
use crate::consts::io::CHANNEL_LAMPS;
use crate::consts::io::CHANNEL_LOSCALAR;
use crate::consts::io::CHANNEL_MNKEYIN;
use crate::consts::io::CHANNEL_NAVKEYIN;
use crate::consts::io::CHANNEL_SUPERBNK;
use crate::consts::IO_NUM_CHANNELS;
use crate::mem::periph::AgcIoPeriph;
use crate::mem::periph::engines::LM_DECEND_ENGINE;
use crate::mem::periph::engines::LmEngines;
use crate::mem::periph::NoPeriph;
use vstd::prelude::*;

verus! {

/// The channels as a value: the stored words, which peripherals are wired,
/// and the engines.
pub struct IoView {
    pub mem: Seq<u16>,
    pub has_downrupt: bool,
    pub has_dsky: bool,
    pub engines: LmEngines,
}

/// Whether the display peripheral answers reads of channel `ch`.
pub open spec fn dsky_channel(ch: usize) -> bool {
    ch == CHANNEL_MNKEYIN || ch == CHANNEL_CHAN32 || ch == CHANNEL_LAMPS
}

/// Whether the downlink peripheral answers reads of channel `ch`.
pub open spec fn downrupt_channel(ch: usize) -> bool {
    ch == CHANNEL_CHAN34 || ch == CHANNEL_CHAN35
}

/// The stored words of the channels when the machine is switched on: the
/// four input channels 30 to 33 show no signal, all others 0.
pub open spec fn io_initial_mem() -> Seq<u16> {
    Seq::new(
        256,
        |i: int|
            if i == 0o30 {
                0o37777u16
            } else if i == 0o31 || i == 0o32 || i == 0o33 {
                0o77777u16
            } else {
                0u16
            },
    )
}

impl IoView {
    /// Whether a read of channel `ch` shows what a wired peripheral answers.
    pub open spec fn answered(self, ch: usize) -> bool {
        (dsky_channel(ch) && self.has_dsky) || (downrupt_channel(ch) && self.has_downrupt)
    }

    /// What a read of channel `ch` gives when the peripheral that owns the
    /// channel, if one is wired, answers `pv`. Channels 30 to 33 show 1 for
    /// an absent signal: channel 30 shows the descent engine as active in
    /// bit 1, channel 32 joins the display's answer with its stored word.
    pub open spec fn read(self, ch: usize, pv: u16) -> u16 {
        if ch == CHANNEL_LOSCALAR || ch == CHANNEL_HISCALAR {
            0
        } else if ch == CHANNEL_SUPERBNK {
            self.mem[ch as int] & 0o00160
        } else if ch == CHANNEL_DSKY {
            0
        } else if ch == CHANNEL_CHAN13 {
            self.mem[ch as int] & 0x47CF
        } else if ch == CHANNEL_MNKEYIN {
            if self.has_dsky {
                pv
            } else {
                0o00000
            }
        } else if ch == CHANNEL_NAVKEYIN {
            0
        } else if ch == CHANNEL_CHAN30 {
            if self.engines.active == LM_DECEND_ENGINE {
                0o37775u16 | 0o00002u16
            } else {
                0o37775u16 | 0o00000u16
            }
        } else if ch == CHANNEL_CHAN31 {
            0o77777
        } else if ch == CHANNEL_CHAN32 {
            (if self.has_dsky {
                pv
            } else {
                0o77777u16
            }) | (self.mem[0o32] & 0o57777)
        } else if ch == CHANNEL_CHAN33 {
            0o77777
        } else if ch == CHANNEL_CHAN34 || ch == CHANNEL_CHAN35 {
            if self.has_downrupt {
                pv
            } else {
                0o77777
            }
        } else if ch == CHANNEL_LAMPS {
            if self.has_dsky {
                pv
            } else {
                0o77777
            }
        } else if ch < IO_NUM_CHANNELS {
            self.mem[ch as int]
        } else {
            0
        }
    }

    /// The interrupts that the peripherals ask for when the display
    /// answers `dsky` and the downlink answers `downrupt`: the answers of
    /// the wired peripherals, joined bit by bit. A peripheral that is not
    /// wired asks for none.
    pub open spec fn poll(self, dsky: u16, downrupt: u16) -> u16 {
        (if self.has_dsky {
            dsky
        } else {
            0u16
        }) | (if self.has_downrupt {
            downrupt
        } else {
            0u16
        })
    }

    /// The channels after `val` is written to channel `ch`: channel 7 keeps
    /// bits 4 to 6, channel 32 is an input and keeps its word, any other
    /// stored channel takes the word; a write beyond the stored channels
    /// changes nothing.
    pub open spec fn write(self, ch: usize, val: u16) -> IoView {
        if ch == CHANNEL_SUPERBNK {
            IoView { mem: self.mem.update(ch as int, val & 0o00160), ..self }
        } else if ch == CHANNEL_CHAN32 {
            self
        } else if ch < IO_NUM_CHANNELS {
            IoView { mem: self.mem.update(ch as int, val), ..self }
        } else {
            self
        }
    }
}

pub struct AgcIoSpace<D: AgcIoPeriph, K: AgcIoPeriph> {
    pub io_mem: [u16; 256],
    pub downrupt: Option<D>,
    pub dsky: Option<K>,
    pub lm_engines: LmEngines,
}

impl<D: AgcIoPeriph, K: AgcIoPeriph> View for AgcIoSpace<D, K> {
    type V = IoView;

    open spec fn view(&self) -> IoView {
        IoView {
            mem: self.io_mem@,
            has_downrupt: self.downrupt is Some,
            has_dsky: self.dsky is Some,
            engines: self.lm_engines,
        }
    }
}

/// The stored words of the channels when the machine is switched on.
fn initial_channels() -> (m: [u16; 256])
    ensures
        m@ == io_initial_mem(),
{
    let mut m: [u16; 256] = [0; 256];
    m[0o30] = 0o37777;
    m[0o31] = 0o77777;
    m[0o32] = 0o77777;
    m[0o33] = 0o77777;
    assert(m@ =~= io_initial_mem());
    m
}

impl AgcIoSpace<NoPeriph, NoPeriph> {
    /// The channels of a machine without peripherals.
    pub fn blank() -> (s: Self)
        ensures
            s@.mem == io_initial_mem(),
            !s@.has_downrupt,
            !s@.has_dsky,
            s@.engines.active == LM_DECEND_ENGINE,
            !s@.engines.decend_engine.enabled,
    {
        AgcIoSpace {
            io_mem: initial_channels(),
            downrupt: None,
            dsky: None,
            lm_engines: LmEngines::new(),
        }
    }
}

impl<D: AgcIoPeriph, K: AgcIoPeriph> AgcIoSpace<D, K> {
    /// The channels of a machine wired to a downlink and a display.
    pub fn new(downrupt: D, dsky: K) -> (s: Self)
        ensures
            s@.mem == io_initial_mem(),
            s@.has_downrupt,
            s@.has_dsky,
            s@.engines.active == LM_DECEND_ENGINE,
            !s@.engines.decend_engine.enabled,
    {
        AgcIoSpace {
            io_mem: initial_channels(),
            downrupt: Some(downrupt),
            dsky: Some(dsky),
            lm_engines: LmEngines::new(),
        }
    }

    /// What channel 11 would show if it showed the engine: bit 12 for an
    /// engine that is on, bit 13 for one that is off, and bits 0 to 6, 8 and
    /// 9 of the stored word. Reads of channel 11 show the stored word
    /// instead.
    pub fn _handle_channel11_read(&self) -> (r: u16)
        ensures
            r == if self@.engines.engine_enabled() {
                0x1000u16 & 0x3000 | self@.mem[0o11] & 0x037F
            } else {
                0x2000u16 & 0x3000 | self@.mem[0o11] & 0x037F
            },
    {
        let engine_enabled: u16 = if self.lm_engines._get_engine_enable() {
            0x1000
        } else {
            0x2000
        };
        engine_enabled & 0x3000 | self.io_mem[0o11] & 0x037F
    }

    /// What a read of channel 30 gives.
    fn handle_channel30_read(&self) -> (r: u16)
        ensures
            r == self@.read(CHANNEL_CHAN30, 0),
    {
        let ae: u8 = self.lm_engines.get_active_engine();
        let verify_engine_bit: u16 = if ae == LM_DECEND_ENGINE {
            0o00002
        } else {
            0o00000
        };
        0o37775 | verify_engine_bit
    }

    /// What a read of channel `channel_idx` gives when the peripheral that
    /// owns the channel answers `periph`.
    pub fn channel_value(&self, channel_idx: usize, periph: u16) -> (r: u16)
        ensures
            r == self@.read(channel_idx, periph),
    {
        if channel_idx == CHANNEL_LOSCALAR || channel_idx == CHANNEL_HISCALAR {
            0
        } else if channel_idx == CHANNEL_SUPERBNK {
            self.io_mem[channel_idx] & 0o00160
        } else if channel_idx == CHANNEL_DSKY {
            0
        } else if channel_idx == CHANNEL_CHAN13 {
            self.io_mem[channel_idx] & 0x47CF
        } else if channel_idx == CHANNEL_MNKEYIN {
            if self.dsky.is_some() {
                periph
            } else {
                0o00000
            }
        } else if channel_idx == CHANNEL_NAVKEYIN {
            0
        } else if channel_idx == CHANNEL_CHAN30 {
            self.handle_channel30_read()
        } else if channel_idx == CHANNEL_CHAN31 {
            0o77777
        } else if channel_idx == CHANNEL_CHAN32 {
            let val: u16 = if self.dsky.is_some() {
                periph
            } else {
                0o77777
            };
            val | (self.io_mem[0o32] & 0o57777)
        } else if channel_idx == CHANNEL_CHAN33 {
            0o77777
        } else if channel_idx == CHANNEL_CHAN34 || channel_idx == CHANNEL_CHAN35 {
            if self.downrupt.is_some() {
                periph
            } else {
                0o77777
            }
        } else if channel_idx == CHANNEL_LAMPS {
            if self.dsky.is_some() {
                periph
            } else {
                0o77777
            }
        } else if channel_idx < IO_NUM_CHANNELS {
            self.io_mem[channel_idx]
        } else {
            0
        }
    }

    /// Asks the peripheral that owns channel `channel_idx`, if one is wired,
    /// for its word; 0 where no peripheral is asked.
    fn ask_peripheral(&self, channel_idx: usize) -> (r: u16)
        ensures
            !self@.answered(channel_idx) ==> r == 0,
    {
        if channel_idx == CHANNEL_MNKEYIN || channel_idx == CHANNEL_CHAN32 || channel_idx
            == CHANNEL_LAMPS {
            match &self.dsky {
                Some(x) => x.read(channel_idx),
                None => 0,
            }
        } else if channel_idx == CHANNEL_CHAN34 || channel_idx == CHANNEL_CHAN35 {
            match &self.downrupt {
                Some(x) => x.read(channel_idx),
                None => 0,
            }
        } else {
            0
        }
    }

    /// Reads channel `channel_idx`. Where a wired peripheral owns the
    /// channel, the result is what the channel shows for the peripheral's
    /// answer, whatever that is; elsewhere nothing is asked and the result
    /// is fixed by the channels alone.
    pub fn read(&self, channel_idx: usize) -> (r: u16)
        ensures
            exists|pv: u16| r == #[trigger] self@.read(channel_idx, pv),
            !self@.answered(channel_idx) ==> r == self@.read(channel_idx, 0),
    {
        let pv: u16 = self.ask_peripheral(channel_idx);
        let r: u16 = self.channel_value(channel_idx, pv);
        assert(r == self@.read(channel_idx, pv));
        r
    }

    /// Writes `val` to channel `channel_idx`, and hands the write to each
    /// wired peripheral.
    pub fn write(&mut self, channel_idx: usize, val: u16)
        ensures
            final(self)@ == old(self)@.write(channel_idx, val),
    {
        match &mut self.dsky {
            Some(x) => {
                x.write(channel_idx, val);
            },
            _ => {},
        }
        match &mut self.downrupt {
            Some(x) => {
                x.write(channel_idx, val);
            },
            _ => {},
        }
        if channel_idx == CHANNEL_SUPERBNK {
            self.io_mem[channel_idx] = val & 0o00160;
        } else if channel_idx == CHANNEL_CHAN32 {
        } else if channel_idx < IO_NUM_CHANNELS {
            self.io_mem[channel_idx] = val;
        }
    }

    /// The interrupts that the peripherals ask for when the display
    /// answers `dsky` and the downlink answers `downrupt`.
    pub fn joined_interrupts(&self, dsky: u16, downrupt: u16) -> (r: u16)
        ensures
            r == self@.poll(dsky, downrupt),
    {
        let a: u16 = if self.dsky.is_some() {
            dsky
        } else {
            0o00000
        };
        let b: u16 = if self.downrupt.is_some() {
            downrupt
        } else {
            0o00000
        };
        a | b
    }

    /// Asks each wired peripheral for its interrupts, the display first,
    /// and joins the answers bit by bit, whatever they are. A machine
    /// without peripherals has none. The channels stay as they are.
    pub fn check_interrupt(&mut self) -> (r: u16)
        ensures
            final(self)@ == old(self)@,
            exists|dsky: u16, downrupt: u16| r == #[trigger] old(self)@.poll(dsky, downrupt),
            !old(self)@.has_dsky && !old(self)@.has_downrupt ==> r == 0,
    {
        let a: u16 = match &mut self.dsky {
            Some(x) => x.is_interrupt(),
            None => 0o00000,
        };
        let b: u16 = match &mut self.downrupt {
            Some(x) => x.is_interrupt(),
            None => 0o00000,
        };
        let r: u16 = self.joined_interrupts(a, b);
        assert(r == old(self)@.poll(a, b));
        assert(0u16 | 0u16 == 0u16) by (bit_vector);
        r
    }
}

} // verus!
