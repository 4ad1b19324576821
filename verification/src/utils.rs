//! Word arithmetic of the machine: 15-bit (SP) and 16-bit (S16)
//! one's-complement words, their conversions to host integers, and the
//! four-byte channel packets exchanged with display programs.

use vstd::prelude::*;

verus! {

/// Whether the SP word `x` is negative: its bit 14 is set.
pub open spec fn sp_negative(x: u16) -> bool {
    (x / 0x4000) % 2 == 1
}

/// The S16 word `a` with its overflow removed: the low 14 bits of `a`, with
/// bits 15 and 14 both taken from bit 15 of `a`.
pub open spec fn spec_overflow_correction(a: u16) -> u16 {
    (a & 0x3FFF) | (if a & 0x8000 == 0x8000 {
        0xC000u16
    } else {
        0u16
    })
}

/// The SP word `k` widened to S16: the low 15 bits of `k`, with bit 14
/// copied into bit 15.
pub open spec fn spec_sign_extend(k: u16) -> u16 {
    (k & 0x7FFF) | (if k & 0x4000 == 0x4000 {
        0x8000u16
    } else {
        0u16
    })
}

/// Whether the S16 word `a` holds an overflow: bits 15 and 14 differ.
pub open spec fn spec_is_overflow(a: u16) -> bool {
    (a & 0x8000 == 0x8000) != (a & 0x4000 == 0x4000)
}

/// The two's-complement form, in 15 bits, of the one's-complement SP word
/// `val`: one more than a negative word, a positive word as it is.
pub open spec fn spec_s15_ones_to_twos(val: u16) -> u16 {
    if sp_negative(val) {
        ((val + 1) % 0x8000) as u16
    } else {
        val % 0x8000
    }
}

/// The sum of two SP words with end-around carry: a carry out of bit 14 is
/// added back in at bit 0, and the result is cut to 15 bits.
pub open spec fn spec_s15_add(a: u16, b: u16) -> u16 {
    if ((a + b) / 0x8000) % 2 == 1 {
        ((a + b + 1) % 0x8000) as u16
    } else {
        ((a + b) % 0x8000) as u16
    }
}

/// The sum of two S16 words with end-around carry: a carry out of bit 15 is
/// added back in at bit 0.
pub open spec fn spec_s16_add(a: u16, b: u16) -> u16 {
    if a + b > 0xFFFF {
        (a + b - 0xFFFF) as u16
    } else {
        (a + b) as u16
    }
}

/// The sum of two double-precision words, with one added when the sum
/// reaches into bits 29 and above.
pub open spec fn spec_dp_add(a: u32, b: u32) -> u32 {
    if a + b >= 0x20000000 {
        (a + b + 1) as u32
    } else {
        (a + b) as u32
    }
}

/// The integer that the SP word `agc_val` stands for in one's complement:
/// its low 14 bits for a positive word, and `0o37777` less for a negative
/// one. Both zeros give 0.
pub open spec fn spec_agc_sp_to_cpu(agc_val: u16) -> int {
    if sp_negative(agc_val) {
        agc_val % 0x4000 - 0o37777
    } else {
        (agc_val % 0x4000) as int
    }
}

/// The integer that the double-precision word `agc_val` stands for in
/// one's complement: its low 28 bits where bit 28 is clear, and
/// `0o1777777777` less where it is set.
pub open spec fn spec_agc_dp_to_cpu(agc_val: u32) -> int {
    if (agc_val / 0x10000000) % 2 == 1 {
        agc_val % 0x10000000 - 0o1777777777
    } else {
        (agc_val % 0x10000000) as int
    }
}

/// The SP word that stands for the integer `cpu_val`: the integer itself
/// when it is positive, else `0o77777` less its magnitude, so that 0 gives
/// minus zero. A magnitude of 15 bits counts as 0.
pub open spec fn spec_cpu_to_agc_sp(cpu_val: i16) -> u16 {
    if cpu_val > 0 {
        cpu_val as u16
    } else {
        (0o77777 - (-cpu_val) % 0x8000) as u16
    }
}

/// Removes the overflow of an S16 word.
pub fn overflow_correction(a: u16) -> (r: u16)
    ensures
        r == spec_overflow_correction(a),
{
    let top: u16 = a & 0xC000;
    assert(spec_overflow_correction(a) == if a & 0xC000 == 0x8000 {
        a | 0xC000
    } else if a & 0xC000 == 0x4000 {
        a & 0x3FFF
    } else {
        a
    }) by (bit_vector);
    if top == 0x8000 {
        a | 0xC000
    } else if top == 0x4000 {
        a & 0x3FFF
    } else {
        a
    }
}

/// Widens an SP word to S16.
pub fn sign_extend(k: u16) -> (r: u16)
    ensures
        r == spec_sign_extend(k),
{
    let bit: u16 = k & 0x4000;
    assert(spec_sign_extend(k) == if k & 0x4000 != 0 {
        k | 0x8000
    } else {
        k & 0x7FFF
    }) by (bit_vector);
    if bit != 0 {
        k | 0x8000
    } else {
        k & 0x7FFF
    }
}

/// Converts a one's-complement SP word to 15-bit two's complement.
pub fn s15_ones_to_twos(val: u16) -> (r: u16)
    ensures
        r == spec_s15_ones_to_twos(val),
{
    let next: u32 = val as u32 + 1;
    assert((val & 0x4000 == 0x4000) == ((val / 0x4000) % 2 == 1) && val & 0x7FFF == val % 0x8000
        && next & 0x7FFF == next % 0x8000) by (bit_vector);
    if val & 0x4000 == 0x4000 {
        (next & 0x7FFF) as u16
    } else {
        val & 0x7FFF
    }
}

/// Adds two SP words with end-around carry.
pub fn s15_add(a: u16, b: u16) -> (r: u16)
    ensures
        r == spec_s15_add(a, b),
{
    let res: u32 = a as u32 + b as u32;
    let next: u32 = res + 1;
    assert((res & 0o100000 == 0o100000) == ((res / 0x8000) % 2 == 1) && res & 0o77777 == res
        % 0x8000 && next & 0o77777 == next % 0x8000) by (bit_vector);
    if res & 0o100000 == 0o100000 {
        (next & 0o77777) as u16
    } else {
        (res & 0o77777) as u16
    }
}

/// Adds two S16 words with end-around carry.
pub fn s16_add(a: u16, b: u16) -> (r: u16)
    ensures
        r == spec_s16_add(a, b),
{
    let res: u32 = a as u32 + b as u32;
    if res > 0xFFFF {
        (res - 0xFFFF) as u16
    } else {
        res as u16
    }
}

/// Adds two double-precision words.
pub fn _dp_add(a: u32, b: u32) -> (r: u32)
    requires
        a + b < u32::MAX,
    ensures
        r == spec_dp_add(a, b),
{
    let res: u32 = a + b;
    assert((res & 0xE0000000 != 0x0) == (res >= 0x20000000)) by (bit_vector);
    if res & 0xE0000000 != 0x0 {
        res + 1
    } else {
        res
    }
}

/// Converts a host integer to the SP word that stands for it.
pub fn cpu_to_agc_sp(cpu_val: i16) -> (r: u16)
    ensures
        r == spec_cpu_to_agc_sp(cpu_val),
{
    if cpu_val <= 0 {
        let mag: u16 = (-(cpu_val as i32)) as u16;
        assert((!mag) & 0x7FFF == 0x7FFF - mag % 0x8000) by (bit_vector);
        (!mag) & 0x7FFF
    } else {
        let word: u16 = cpu_val as u16;
        assert(word & 0x7FFF == word) by (bit_vector)
            requires
                word <= 0x7FFF,
        ;
        word & 0x7FFF
    }
}

/// Converts an SP word to the host integer it stands for.
pub fn agc_sp_to_cpu(agc_val: u16) -> (r: i16)
    ensures
        r == spec_agc_sp_to_cpu(agc_val),
        -0o37777 <= r <= 0o37777,
{
    assert((agc_val & 0o040000 != 0) == ((agc_val / 0x4000) % 2 == 1) && (!agc_val) & 0o037777
        == 0o37777 - agc_val % 0x4000 && agc_val & 0o37777 == agc_val % 0x4000) by (bit_vector);
    if agc_val & 0o040000 != 0 {
        let mag: u16 = (!agc_val) & 0o037777;
        -(mag as i16)
    } else {
        let mag: u16 = agc_val & 0o37777;
        mag as i16
    }
}

/// Converts a double-precision word to the host integer it stands for.
pub fn agc_dp_to_cpu(agc_val: u32) -> (r: i32)
    ensures
        r == spec_agc_dp_to_cpu(agc_val),
        -0o1777777777 <= r <= 0o1777777777,
{
    assert((agc_val & 0o2000000000 != 0) == ((agc_val / 0x10000000) % 2 == 1) && (!agc_val)
        & 0o1777777777 == 0o1777777777 - agc_val % 0x10000000 && agc_val & 0o1777777777
        == agc_val % 0x10000000) by (bit_vector);
    if agc_val & 0o2000000000 != 0 {
        let mag: u32 = (!agc_val) & 0o1777777777;
        -(mag as i32)
    } else {
        let mag: u32 = agc_val & 0o1777777777;
        mag as i32
    }
}

/// The four bytes that carry `value` for `channel`: each byte starts with its
/// position (`00`, `01`, `10`, `11`) in its two high bits; the low six bits
/// hold, in turn, bits 3 to 7 of the channel, the channel's low three bits
/// followed by bits 12 to 14 of the value, bits 6 to 11 of the value, and
/// bits 0 to 5 of the value.
pub open spec fn spec_yaagc_packet(channel: usize, value: u16) -> Seq<u8> {
    seq![
        ((channel >> 3) & 0x1F) as u8,
        0x40u8 | ((channel & 0x7) << 3) as u8 | ((value >> 12) & 0x7) as u8,
        0x80u8 | ((value >> 6) & 0x3F) as u8,
        0xC0u8 | (value & 0x3F) as u8,
    ]
}

/// Whether the four bytes carry their positions in their high bits.
pub open spec fn spec_yaagc_framed(msg: Seq<u8>) -> bool {
    &&& msg.len() == 4
    &&& msg[0] & 0xC0 == 0x00
    &&& msg[1] & 0xC0 == 0x40
    &&& msg[2] & 0xC0 == 0x80
    &&& msg[3] & 0xC0 == 0xC0
}

/// The channel that a framed packet names.
pub open spec fn spec_yaagc_channel(msg: Seq<u8>) -> u16 {
    ((msg[0] as u16) & 0x3F) << 3 | ((msg[1] as u16) >> 3 & 0x7)
}

/// The value that a framed packet carries.
pub open spec fn spec_yaagc_value(msg: Seq<u8>) -> u16 {
    ((msg[1] as u16) & 0x7) << 12 | ((msg[2] as u16) & 0x3F) << 6 | ((msg[3] & 0x3F) as u16)
}

/// Builds the packet that carries `value` for `channel`.
pub fn generate_yaagc_packet(channel: usize, value: u16) -> (r: [u8; 4])
    ensures
        r@ == spec_yaagc_packet(channel, value),
{
    let r: [u8; 4] = [
        ((channel >> 3) & 0x1F) as u8,
        0x40u8 | ((channel & 0x7) << 3) as u8 | ((value >> 12) & 0x7) as u8,
        0x80u8 | ((value >> 6) & 0x3F) as u8,
        0xC0u8 | (value & 0x3F) as u8,
    ];
    assert(r@ =~= spec_yaagc_packet(channel, value));
    r
}

/// Reads a packet: `Some((channel, value))` exactly when the four bytes are
/// framed, `None` otherwise.
pub fn parse_yaagc_packet(msg: [u8; 4]) -> (r: Option<(u16, u16)>)
    ensures
        spec_yaagc_framed(msg@) ==> r == Some((spec_yaagc_channel(msg@), spec_yaagc_value(msg@))),
        !spec_yaagc_framed(msg@) ==> r is None,
{
    let a: u8 = msg[0];
    let b: u8 = msg[1];
    let c: u8 = msg[2];
    let d: u8 = msg[3];

    if a & 0xC0 != 0x00 || b & 0xC0 != 0x40 || c & 0xC0 != 0x80 || d & 0xC0 != 0xC0 {
        return None;
    }
    let value: u16 = ((b as u16) & 0x7) << 12 | ((c as u16) & 0x3F) << 6 | ((d & 0x3F) as u16);
    let channel: u16 = ((a as u16) & 0x3F) << 3 | ((b as u16) >> 3 & 0x7);
    Some((channel, value))
}

/// A packet that was built is framed, and reading it gives back the low
/// eight bits of the channel and the low fifteen bits of the value.
pub proof fn lemma_yaagc_round_trip(channel: usize, value: u16)
    ensures
        spec_yaagc_framed(spec_yaagc_packet(channel, value)),
        spec_yaagc_channel(spec_yaagc_packet(channel, value)) == (channel & 0xFF) as u16,
        spec_yaagc_value(spec_yaagc_packet(channel, value)) == value & 0x7FFF,
{
    let p = spec_yaagc_packet(channel, value);
    let c: u64 = channel as u64;
    let a0: u8 = ((c >> 3) & 0x1F) as u8;
    let ch_lo: u8 = ((c & 0x7) << 3) as u8;
    assert(((channel >> 3) & 0x1F) as u8 == a0 && ((channel & 0x7) << 3) as u8 == ch_lo
        && (channel & 0xFF) as u16 == (c & 0xFF) as u16) by (bit_vector)
        requires
            c == channel as u64,
            a0 == ((c >> 3) & 0x1F) as u8,
            ch_lo == ((c & 0x7) << 3) as u8,
    ;
    let b0: u8 = 0x40u8 | ch_lo | ((value >> 12) & 0x7) as u8;
    let c0: u8 = 0x80u8 | ((value >> 6) & 0x3F) as u8;
    let d0: u8 = 0xC0u8 | (value & 0x3F) as u8;
    assert(p[0] == a0 && p[1] == b0 && p[2] == c0 && p[3] == d0);
    assert(a0 & 0xC0 == 0x00 && b0 & 0xC0 == 0x40 && c0 & 0xC0 == 0x80 && d0 & 0xC0 == 0xC0
        && ((a0 as u16) & 0x3F) << 3 | ((b0 as u16) >> 3 & 0x7) == (c & 0xFF) as u16
        && ((b0 as u16) & 0x7) << 12 | ((c0 as u16) & 0x3F) << 6 | ((d0 & 0x3F) as u16) == value
        & 0x7FFF) by (bit_vector)
        requires
            a0 == ((c >> 3) & 0x1F) as u8,
            ch_lo == ((c & 0x7) << 3) as u8,
            b0 == 0x40u8 | ch_lo | ((value >> 12) & 0x7) as u8,
            c0 == 0x80u8 | ((value >> 6) & 0x3F) as u8,
            d0 == 0xC0u8 | (value & 0x3F) as u8,
    ;
}

/// The integer that the S16 word `x` stands for when it is read as a 16-bit
/// one's-complement number: both zeros give 0.
pub open spec fn spec_s16_value(x: u16) -> int {
    if x >= 0x8000 {
        x - 0xFFFF
    } else {
        x as int
    }
}

/// The sum of two S16 words stands for the sum of what the words stand
/// for, wherever that sum fits in 16 bits of one's complement.
pub proof fn lemma_s16_add_is_sum(a: u16, b: u16)
    requires
        -0x7FFF <= spec_s16_value(a) + spec_s16_value(b) <= 0x7FFF,
    ensures
        spec_s16_value(spec_s16_add(a, b)) == spec_s16_value(a) + spec_s16_value(b),
{
}

/// The sum of two SP words stands for the sum of what the words stand for,
/// wherever that sum fits in 15 bits of one's complement.
pub proof fn lemma_s15_add_is_sum(a: u16, b: u16)
    requires
        a <= 0o77777,
        b <= 0o77777,
        -0o37777 <= spec_agc_sp_to_cpu(a) + spec_agc_sp_to_cpu(b) <= 0o37777,
    ensures
        spec_s15_add(a, b) <= 0o77777,
        spec_agc_sp_to_cpu(spec_s15_add(a, b)) == spec_agc_sp_to_cpu(a) + spec_agc_sp_to_cpu(b),
{
}

/// An overflow-corrected word holds no overflow: its bits 15 and 14 are both
/// clear or both set, as bit 15 was, and its low 14 bits are as they were.
/// A sign-extended word holds none either: its bit 15 is as bit 14 was, and
/// its low 15 bits are as they were.
pub proof fn lemma_corrected_is_settled(x: u16)
    by (bit_vector)
    ensures
        spec_overflow_correction(x) & 0x3FFF == x & 0x3FFF,
        (spec_overflow_correction(x) & 0xC000 == 0xC000) == (x & 0x8000 == 0x8000),
        spec_sign_extend(x) & 0x7FFF == x & 0x7FFF,
        (spec_sign_extend(x) & 0x8000 == 0x8000) == (x & 0x4000 == 0x4000),
        spec_overflow_correction(x) & 0xC000 == 0x0000 || spec_overflow_correction(x) & 0xC000
            == 0xC000,
        !spec_is_overflow(spec_overflow_correction(x)),
        !spec_is_overflow(spec_sign_extend(x)),
        spec_is_overflow(x) <==> (x & 0xC000 == 0x4000 || x & 0xC000 == 0x8000),
        spec_is_overflow(x) <==> spec_overflow_correction(x) != x,
{
}

/// Sign extension leaves an overflow-corrected word as it is.
pub proof fn lemma_sign_extend_of_corrected(x: u16)
    by (bit_vector)
    ensures
        spec_sign_extend(spec_overflow_correction(x)) == spec_overflow_correction(x),
{
}

/// Converting an SP word to a host integer and back gives the word again,
/// except that both zeros come back as minus zero; minus zero itself is a
/// fixed point.
pub proof fn lemma_sp_round_trip(x: u16)
    requires
        x <= 0o77777,
    ensures
        -0o37777 <= spec_agc_sp_to_cpu(x) <= 0o37777,
        x != 0 ==> spec_cpu_to_agc_sp(spec_agc_sp_to_cpu(x) as i16) == x,
        x == 0 ==> spec_cpu_to_agc_sp(spec_agc_sp_to_cpu(x) as i16) == 0o77777,
{
}

} // verus!
