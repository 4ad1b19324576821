//! The display and keyboard: the digits and lamps that the program has
//! set, and the key that was pressed last.

use crate::consts::cpu::RUPT_BIT_KEY1;
use crate::consts::io::CHANNEL_CHAN13;
use crate::consts::io::CHANNEL_CHAN30;
use crate::consts::io::CHANNEL_CHAN31;
use crate::consts::io::CHANNEL_CHAN32;
use crate::consts::io::CHANNEL_CHAN33;
use crate::consts::io::CHANNEL_DSALMOUT;
use crate::consts::io::CHANNEL_DSKY;
use crate::consts::io::CHANNEL_LAMPS;
use crate::consts::io::CHANNEL_MNKEYIN;
use crate::periph::utils::get_7seg;
use crate::periph::utils::get_7seg_value;
use crate::periph::utils::spec_7seg;
use crate::periph::utils::spec_7seg_value;
use vstd::prelude::*;

verus! {

/// The code of the RSET key.
pub const KEY_RSET: u16 = 0o22;

/// The bit that marks a key event as a change of the PRO key.
pub const KEY_PROCEED: u16 = 0o40000;

/// The display as a value.
pub struct DskyView {
    /// The patterns of the fifteen digits of the three data rows.
    pub digit: Seq<u8>,
    pub noun: u16,
    pub verb: u16,
    pub prog: u16,
    /// What channel 32 shows of the PRO key.
    pub proceed: u16,
    /// The lamps.
    pub output_flags: u16,
    /// The key that was pressed last.
    pub keypress_val: u16,
    pub last_dsalmout: u16,
    pub last_dskyval: u16,
}

/// What the display has to send after a write or a key: a word for a
/// channel of the display proper, and the new state of the lamps for the
/// flasher.
pub struct DskyOutput {
    pub packet: Option<(usize, u16)>,
    pub flash: Option<u16>,
}

/// The row that a word for the display channel addresses: bits 11 to 14.
pub open spec fn dsky_row(val: u16) -> u8 {
    ((val >> 11) & 0xF) as u8
}

/// The sign bit of a word for the display channel: bit 10.
pub open spec fn dsky_sign(val: u16) -> bool {
    val & 0x400 == 0x400
}

/// The first digit code of a word for the display channel: bits 5 to 9.
pub open spec fn dsky_high(val: u16) -> u8 {
    ((val >> 5) & 0x1F) as u8
}

/// The second digit code of a word for the display channel: bits 0 to 4.
pub open spec fn dsky_low(val: u16) -> u8 {
    (val & 0x1F) as u8
}

impl DskyView {
    /// The display when it is switched on.
    pub open spec fn initial() -> DskyView {
        DskyView {
            digit: Seq::new(15, |i: int| 0u8),
            noun: 0,
            verb: 0,
            prog: 0,
            proceed: 0o20000,
            output_flags: 0,
            keypress_val: 0,
            last_dsalmout: 0,
            last_dskyval: 0,
        }
    }

    /// The display after the word `val` for the display channel, which is
    /// not the word it had last. Rows 1 to 7 set a pair of digits, from the
    /// last pair to the first; row 8 sets the first digit; rows 9, 10 and
    /// 11 set noun, verb and program; any other row changes no digit.
    pub open spec fn show(self, val: u16) -> DskyView {
        let a = dsky_row(val);
        let c = dsky_high(val);
        let d = dsky_low(val);
        let s = DskyView { last_dskyval: val, ..self };
        if 1 <= a <= 7 {
            DskyView {
                digit: s.digit.update(15 - 2 * a, spec_7seg(c)).update(16 - 2 * a, spec_7seg(d)),
                ..s
            }
        } else if a == 8 {
            DskyView { digit: s.digit.update(0, spec_7seg(d)), ..s }
        } else if a == 11 {
            DskyView { prog: spec_7seg_value(c, d), ..s }
        } else if a == 10 {
            DskyView { verb: spec_7seg_value(c, d), ..s }
        } else if a == 9 {
            DskyView { noun: spec_7seg_value(c, d), ..s }
        } else {
            s
        }
    }

    /// The lamps after `value` is written to channel `channel_idx`:
    /// channel 13 sets the lamp test from bit 9, the lamp channel sets all
    /// lamps; `None` where the channel sets no lamp.
    pub open spec fn lamps_after(self, channel_idx: usize, value: u16) -> Option<u16> {
        if channel_idx == CHANNEL_CHAN13 {
            if value & 0o01000 != 0o00000 {
                Some(self.output_flags | 0o00400)
            } else {
                Some(self.output_flags & 0o77377)
            }
        } else if channel_idx == CHANNEL_LAMPS {
            Some(value)
        } else {
            None
        }
    }

    /// What the display shows on channel `channel_idx`.
    pub open spec fn channel_value(self, channel_idx: usize) -> u16 {
        if channel_idx == CHANNEL_LAMPS {
            self.output_flags & 0o1771
        } else {
            0o00000
        }
    }

    /// What the display answers to a read of channel `channel_idx`: the
    /// last key on channel 15, the PRO key on channel 32, its lamps on the
    /// lamp channel, no signal on channels 30, 31 and 33, 0 elsewhere.
    pub open spec fn read(self, channel_idx: usize) -> u16 {
        if channel_idx == CHANNEL_MNKEYIN {
            self.keypress_val & 0x1F
        } else if channel_idx == CHANNEL_CHAN30 || channel_idx == CHANNEL_CHAN31 || channel_idx
            == CHANNEL_CHAN33 {
            0o77777
        } else if channel_idx == CHANNEL_CHAN32 {
            self.proceed
        } else {
            self.channel_value(channel_idx)
        }
    }
}

pub struct DskyDisplay {
    pub digit: [u8; 15],
    pub noun: u16,
    pub verb: u16,
    pub prog: u16,
    pub proceed: u16,
    pub output_flags: u16,
    pub keypress_val: u16,
    pub last_dsalmout: u16,
    pub last_dskyval: u16,
}

impl View for DskyDisplay {
    type V = DskyView;

    open spec fn view(&self) -> DskyView {
        DskyView {
            digit: self.digit@,
            noun: self.noun,
            verb: self.verb,
            prog: self.prog,
            proceed: self.proceed,
            output_flags: self.output_flags,
            keypress_val: self.keypress_val,
            last_dsalmout: self.last_dsalmout,
            last_dskyval: self.last_dskyval,
        }
    }
}

/// The key event that a message from a keyboard stands for: a key on
/// channel 15 as it is, a change of the PRO key on channel 32 marked as
/// such; `None` for a message on any other channel.
pub open spec fn spec_key_event(channel: usize, value: u16) -> Option<u16> {
    if channel == CHANNEL_MNKEYIN {
        Some(value)
    } else if channel == CHANNEL_CHAN32 {
        Some(value | KEY_PROCEED)
    } else {
        None
    }
}

/// The key event that a message from a keyboard stands for.
pub fn handle_yaagc_message(channel: usize, value: u16) -> (r: Option<u16>)
    ensures
        r == spec_key_event(channel, value),
{
    if channel == CHANNEL_MNKEYIN {
        Some(value)
    } else if channel == CHANNEL_CHAN32 {
        Some(value | KEY_PROCEED)
    } else {
        None
    }
}

/// What the flasher shows of the lamps `channel_value` at `elapsed`
/// milliseconds: in the first three quarters of each second the lamps with
/// the flash bit (`0o40`) cleared; in the last quarter the lamps without
/// bits 4 to 6 but with the flash bit as it is, and nothing where no lamp
/// is set.
pub open spec fn spec_flash(channel_value: u16, elapsed: u64) -> Option<u16> {
    if elapsed % 1000 < 750 {
        if channel_value & 0o00040 == 0o00040 {
            Some(channel_value & !0o00040u16)
        } else {
            Some(channel_value)
        }
    } else if channel_value != 0o00000 {
        if channel_value & 0o00040 == 0o00040 {
            Some((channel_value & !0o00160u16) | 0o00040)
        } else {
            Some(channel_value & !0o00160u16)
        }
    } else {
        None
    }
}

/// What the flasher shows of the lamps at a time.
pub fn flash_value(channel_value: u16, elapsed: u64) -> (r: Option<u16>)
    ensures
        r == spec_flash(channel_value, elapsed),
{
    if elapsed % 1000 < 750 {
        let mut value: u16 = channel_value;
        if channel_value & 0o00040 == 0o00040 {
            value = value & !0o00040u16;
        }
        Some(value)
    } else if channel_value != 0o00000 {
        let mut value: u16 = channel_value & !0o00160u16;
        if channel_value & 0o00040 == 0o00040 {
            value = value | 0o00040;
        }
        Some(value)
    } else {
        None
    }
}

impl DskyDisplay {
    pub fn new() -> (r: Self)
        ensures
            r@ == DskyView::initial(),
    {
        let r = Self {
            digit: [0; 15],
            noun: 0,
            verb: 0,
            prog: 0,
            keypress_val: 0,
            proceed: 0o20000,
            output_flags: 0x0,
            last_dsalmout: 0x0,
            last_dskyval: 0x0,
        };
        assert(r@.digit =~= DskyView::initial().digit);
        r
    }

    /// The fields of a word for the display channel: row, sign, and the
    /// two digit codes.
    pub fn parse_fields(&self, val: u16) -> (r: (u8, bool, u8, u8))
        ensures
            r == (dsky_row(val), dsky_sign(val), dsky_high(val), dsky_low(val)),
            r.0 <= 15,
    {
        let a: u8 = ((val >> 11) & 0xF) as u8;
        let c: u8 = ((val >> 5) & 0x1F) as u8;
        let d: u8 = (val & 0x1F) as u8;
        let b: bool = val & 0x400 == 0x400;
        assert(((val >> 11) & 0xF) as u8 <= 15) by (bit_vector);
        (a, b, c, d)
    }

    /// The key that was pressed last, in five bits.
    pub fn read_keypress(&self) -> (r: u16)
        ensures
            r == self@.read(CHANNEL_MNKEYIN),
    {
        self.keypress_val & 0x1F
    }

    /// Sets the lamps from a write to channel 13 or to the lamp channel and
    /// returns their new state for the flasher.
    pub fn set_channel_value(&mut self, channel_idx: usize, value: u16) -> (r: Option<u16>)
        ensures
            r == old(self)@.lamps_after(channel_idx, value),
            final(self)@ == (DskyView {
                output_flags: match r {
                    Some(flags) => flags,
                    None => old(self)@.output_flags,
                },
                ..old(self)@
            }),
    {
        if channel_idx == CHANNEL_CHAN13 {
            if value & 0o01000 != 0o00000 {
                self.output_flags = self.output_flags | 0o00400;
            } else {
                self.output_flags = self.output_flags & 0o77377;
            }
            Some(self.output_flags)
        } else if channel_idx == CHANNEL_LAMPS {
            self.output_flags = value;
            Some(self.output_flags)
        } else {
            None
        }
    }

    /// What the display shows on channel `channel_idx`.
    pub fn get_channel_value(&self, channel_idx: usize) -> (r: u16)
        ensures
            r == self@.channel_value(channel_idx),
    {
        if channel_idx == CHANNEL_LAMPS {
            self.output_flags & 0o1771
        } else {
            0o00000
        }
    }

    /// What channel 32 shows of the PRO key.
    pub fn read_proceed_flag(&self) -> (r: u16)
        ensures
            r == self@.read(CHANNEL_CHAN32),
    {
        self.proceed
    }

    /// Takes the word `flags` written to channel 11. A word that differs
    /// from the last is sent on, and its bits 3 to 6 become lamps.
    pub fn set_dsalmout_flags(&mut self, flags: u16) -> (r: DskyOutput)
        ensures
            old(self)@.last_dsalmout == flags ==> final(self)@ == old(self)@ && r.packet is None
                && r.flash is None,
            old(self)@.last_dsalmout != flags ==> final(self)@ == (DskyView {
                last_dsalmout: flags,
                output_flags: (old(self)@.output_flags & 0o77607) | (flags & 0o00170),
                ..old(self)@
            }) && r.packet == Some((CHANNEL_DSALMOUT, flags)) && r.flash == Some(
                final(self)@.output_flags,
            ),
    {
        if self.last_dsalmout != flags {
            self.last_dsalmout = flags;
            self.output_flags = (self.output_flags & 0o77607) | (flags & 0o00170);
            DskyOutput { packet: Some((CHANNEL_DSALMOUT, flags)), flash: Some(self.output_flags) }
        } else {
            DskyOutput { packet: None, flash: None }
        }
    }

    /// Row 12 of the display channel carries lamps that this display does
    /// not show.
    pub fn set_adv_flags(&mut self, _flags: u16)
        ensures
            final(self)@ == old(self)@,
    {
    }

    /// Takes the word `val` written to the display channel. A word that
    /// differs from the last is sent on and sets the digits of its row.
    pub fn set_channel_dsky_value(&mut self, val: u16) -> (r: Option<(usize, u16)>)
        ensures
            old(self)@.last_dskyval == val ==> final(self)@ == old(self)@ && r is None,
            old(self)@.last_dskyval != val ==> final(self)@ == old(self)@.show(val) && r == Some(
                (CHANNEL_DSKY, val),
            ),
    {
        if self.last_dskyval == val {
            return None;
        }
        self.last_dskyval = val;
        let (a, _b, c, d) = self.parse_fields(val);
        if 1 <= a && a <= 7 {
            let first: usize = 15 - 2 * (a as usize);
            self.digit[first] = get_7seg(c);
            self.digit[first + 1] = get_7seg(d);
        } else if a == 8 {
            self.digit[0] = get_7seg(d);
        } else if a == 11 {
            self.prog = get_7seg_value(c, d);
        } else if a == 10 {
            self.verb = get_7seg_value(c, d);
        } else if a == 9 {
            self.noun = get_7seg_value(c, d);
        } else if a == 12 {
            self.set_adv_flags(val & 0x7FF);
        }
        Some((CHANNEL_DSKY, val))
    }

    /// What the display answers to a read of channel `channel_idx`.
    pub fn read(&self, channel_idx: usize) -> (r: u16)
        ensures
            r == self@.read(channel_idx),
    {
        if channel_idx == CHANNEL_MNKEYIN {
            self.read_keypress()
        } else if channel_idx == CHANNEL_CHAN30 || channel_idx == CHANNEL_CHAN31 || channel_idx
            == CHANNEL_CHAN33 {
            0o77777
        } else if channel_idx == CHANNEL_CHAN32 {
            self.read_proceed_flag()
        } else {
            self.get_channel_value(channel_idx)
        }
    }

    /// Takes the write of `value` to channel `channel_idx` and returns
    /// what is to be sent: the display channel and channel 11 are sent on
    /// where they change, channel 13 and the lamp channel set lamps.
    pub fn write(&mut self, channel_idx: usize, value: u16) -> (r: DskyOutput)
        ensures
            channel_idx == CHANNEL_DSKY && old(self)@.last_dskyval != value ==> final(self)@
                == old(self)@.show(value) && r.packet == Some((CHANNEL_DSKY, value)) && r.flash
                is None,
            channel_idx == CHANNEL_DSKY && old(self)@.last_dskyval == value ==> final(self)@
                == old(self)@ && r.packet is None && r.flash is None,
            channel_idx == CHANNEL_DSALMOUT && old(self)@.last_dsalmout != value ==> final(self)@
                == (DskyView {
                last_dsalmout: value,
                output_flags: (old(self)@.output_flags & 0o77607) | (value & 0o00170),
                ..old(self)@
            }) && r.packet == Some((CHANNEL_DSALMOUT, value)) && r.flash == Some(
                final(self)@.output_flags,
            ),
            channel_idx == CHANNEL_DSALMOUT && old(self)@.last_dsalmout == value ==> final(self)@
                == old(self)@ && r.packet is None && r.flash is None,
            channel_idx == CHANNEL_CHAN13 || channel_idx == CHANNEL_LAMPS ==> r.packet is None
                && r.flash == old(self)@.lamps_after(channel_idx, value) && final(self)@ == (
            DskyView { output_flags: r.flash->Some_0, ..old(self)@ }),
            channel_idx != CHANNEL_DSKY && channel_idx != CHANNEL_DSALMOUT && channel_idx
                != CHANNEL_CHAN13 && channel_idx != CHANNEL_LAMPS ==> final(self)@ == old(self)@
                && r.packet is None && r.flash is None,
    {
        if channel_idx == CHANNEL_DSKY {
            let packet = self.set_channel_dsky_value(value);
            DskyOutput { packet: packet, flash: None }
        } else if channel_idx == CHANNEL_DSALMOUT {
            self.set_dsalmout_flags(value)
        } else if channel_idx == CHANNEL_CHAN13 || channel_idx == CHANNEL_LAMPS {
            let flash = self.set_channel_value(channel_idx, value);
            DskyOutput { packet: None, flash: flash }
        } else {
            DskyOutput { packet: None, flash: None }
        }
    }

    /// Takes a key event and returns the interrupt that it asks for and
    /// the new state of the lamps, if they change. A change of the PRO key
    /// sets what channel 32 shows; any other key becomes the last key, and
    /// the RSET key puts out the restart lamp.
    pub fn key_event(&mut self, val: u16) -> (r: (u16, Option<u16>))
        ensures
            r.0 == RUPT_BIT_KEY1,
            val & KEY_PROCEED == KEY_PROCEED ==> final(self)@ == (DskyView {
                proceed: val & 0o37777,
                ..old(self)@
            }) && r.1 is None,
            val & KEY_PROCEED != KEY_PROCEED && val != KEY_RSET ==> final(self)@ == (DskyView {
                keypress_val: val,
                ..old(self)@
            }) && r.1 is None,
            val & KEY_PROCEED != KEY_PROCEED && val == KEY_RSET ==> final(self)@ == (DskyView {
                keypress_val: val,
                output_flags: (old(self)@.output_flags & 0o1771) & !0o00200u16,
                ..old(self)@
            }) && r.1 == Some(final(self)@.output_flags),
    {
        if val & KEY_PROCEED == KEY_PROCEED {
            self.proceed = val & 0o37777;
            (RUPT_BIT_KEY1, None)
        } else {
            self.keypress_val = val;
            if self.keypress_val == KEY_RSET {
                let io_val: u16 = self.get_channel_value(CHANNEL_LAMPS);
                let flash = self.set_channel_value(CHANNEL_LAMPS, io_val & !0o00200u16);
                (RUPT_BIT_KEY1, flash)
            } else {
                (RUPT_BIT_KEY1, None)
            }
        }
    }
}

} // verus!
