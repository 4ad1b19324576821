//! The arithmetic instructions, and the word arithmetic that only they
//! need.

use crate::bits::lemma_and_le_u16;
use crate::bits::lemma_and_le_u32;
use crate::consts::cpu::REG_A;
use crate::consts::cpu::REG_L;
use crate::consts::cpu::REG_Q;
use crate::cpu::AgcCpu;
use crate::cpu::AgcOverflow;
use crate::cpu::CpuView;
use crate::cpu::is_wide_addr;
use crate::cpu::overflow_of;
use crate::cpu::spec_overflow_of;
use crate::instr::AgcInst;
use crate::mem::periph::AgcIoPeriph;
use crate::utils::agc_dp_to_cpu;
use crate::utils::agc_sp_to_cpu;
use crate::utils::overflow_correction;
use crate::utils::s16_add;
use crate::utils::sp_negative;
use crate::utils::spec_agc_dp_to_cpu;
use crate::utils::spec_agc_sp_to_cpu;
use crate::utils::spec_overflow_correction;
use crate::utils::spec_s16_add;
use vstd::prelude::*;

verus! {

/// The magnitude of the SP word `value`: the word itself when it is
/// positive, `0o77777` less the word when it is negative.
pub open spec fn spec_s15_abs(value: u16) -> u16 {
    if sp_negative(value) {
        (0o77777 - value % 0x8000) as u16
    } else {
        value % 0x8000
    }
}

/// The integer that the pair of SP words `(upper, lower)` stands for.
pub open spec fn spec_dp_value(upper: u16, lower: u16) -> int {
    spec_agc_sp_to_cpu(upper) * 16384 + spec_agc_sp_to_cpu(lower)
}

/// The largest double-precision word, which is minus zero: 29 bits set.
pub const DP_MINUS_ZERO: u32 = 0o3777777777;

/// The double-precision word for the pair of SP words `(upper, lower)`: the
/// pair's integer in 28 bits when it is positive, the 29-bit complement of
/// its magnitude when it is negative. A pair of zeros takes the sign of the
/// lower word.
pub open spec fn spec_convert_to_dp(upper: u16, lower: u16) -> u32 {
    let v = spec_dp_value(upper, lower);
    if v > 0 {
        v as u32
    } else if v < 0 {
        (DP_MINUS_ZERO + v) as u32
    } else if sp_negative(lower) {
        DP_MINUS_ZERO
    } else {
        0
    }
}

/// The pair of SP words for the double-precision word `val`: bits 14 to 28
/// make the upper word, and the lower word takes bits 0 to 13 under the
/// upper word's sign.
pub open spec fn spec_dp_unpack(val: u32) -> (u16, u16) {
    let upper: u16 = ((val / 16384) % 0x8000) as u16;
    (
        upper,
        (val % 16384 + if sp_negative(upper) {
            0o40000int
        } else {
            0int
        }) as u16,
    )
}

/// The magnitude of an SP word.
pub fn s15_abs(value: u16) -> (r: u16)
    ensures
        r == spec_s15_abs(value),
{
    assert((value & 0o40000 == 0o40000) == ((value / 0x4000) % 2 == 1) && !value & 0o77777
        == 0o77777 - value % 0x8000 && value & 0o77777 == value % 0x8000) by (bit_vector);
    if value & 0o40000 == 0o40000 {
        !value & 0o77777
    } else {
        value & 0o77777
    }
}

/// Packs a pair of SP words into a double-precision word of one sign.
pub fn convert_to_dp(upper: u16, lower: u16) -> (r: u32)
    ensures
        r == spec_convert_to_dp(upper, lower),
        r <= DP_MINUS_ZERO,
{
    let u: i32 = agc_sp_to_cpu(upper) as i32;
    let l: i32 = agc_sp_to_cpu(lower) as i32;
    let v: i32 = u * 16384 + l;
    assert((lower & 0o40000 == 0o40000) == ((lower / 0x4000) % 2 == 1)) by (bit_vector);
    if v > 0 {
        v as u32
    } else if v < 0 {
        (0o3777777777i32 + v) as u32
    } else if lower & 0o40000 == 0o40000 {
        DP_MINUS_ZERO
    } else {
        0
    }
}

/// Splits a double-precision word into its pair of SP words.
pub fn dp_unpack(val: u32) -> (r: (u16, u16))
    ensures
        r == spec_dp_unpack(val),
{
    let upper: u16 = ((val >> 14) & 0o77777) as u16;
    let low: u16 = (val & 0o37777) as u16;
    assert((val >> 14) & 0o77777 == (val / 16384) % 0x8000 && val & 0o37777 == val % 16384)
        by (bit_vector);
    assert(low | (upper & 0o40000) == low + if (upper / 0x4000) % 2 == 1 {
        0o40000u16
    } else {
        0u16
    }) by (bit_vector)
        requires
            low <= 0o37777,
            upper <= 0o77777,
    ;
    let lower: u16 = low | (upper & 0o40000);
    (upper, lower)
}

/// The word that follows `val` when a register counts up: a 16-bit
/// register stays at its largest positive count and steps from minus zero
/// to one; a 15-bit word steps from its largest positive count to zero and
/// from minus zero to one.
pub open spec fn spec_incr_value(wide: bool, val: u16) -> u16 {
    if wide {
        if val == 0o077777 {
            val
        } else if val == 0o177777 {
            0o000001
        } else {
            (val + 1) as u16
        }
    } else {
        if val == 0o37777 {
            0o00000
        } else if val == 0o77777 {
            0o00001
        } else {
            ((val + 1) % 0x8000) as u16
        }
    }
}

/// The S16 word `v` with its magnitude raised by one: a word with bit 15
/// set moves down, any other moves up.
pub open spec fn spec_aug_s16(v: u16) -> u16 {
    if v >= 0o100000 {
        (v - 1) as u16
    } else {
        (v + 1) as u16
    }
}

/// The SP word `v` with its magnitude raised by one: a word with bit 14
/// set moves down, any other moves up.
pub open spec fn spec_aug_s15(v: u16) -> u16 {
    if v >= 0o40000 {
        (v - 1) as u16
    } else {
        (v + 1) as u16
    }
}

/// What DIM writes for the S16 word `kval`: nothing for either zero; a word
/// with bit 14 set moves up by one; one becomes minus zero; any other word
/// moves down by one.
pub open spec fn spec_dim_value(kval: u16) -> Option<u16> {
    if kval == 0o177777 || kval == 0o00000 {
        None
    } else if sp_negative(kval) {
        Some((kval + 1) as u16)
    } else if kval == 1 {
        Some(0o177777u16)
    } else {
        Some((kval - 1) as u16)
    }
}

/// The modular difference of two S16 words: `a` minus `k` modulo 2 to the
/// 16, which is their difference in two's complement, and one less where
/// that is negative, which makes it one's complement.
pub open spec fn spec_msu16(a: u16, k: u16) -> u16 {
    let diff = (a - k) % 0x10000;
    if diff >= 0x8000 {
        (diff - 1) as u16
    } else {
        diff as u16
    }
}

/// The modular difference of two SP words: `a` minus `k` modulo 2 to the
/// 15, and one less where that is negative.
pub open spec fn spec_msu15(a: u16, k: u16) -> u16 {
    let diff = (a - k) % 0x8000;
    if diff >= 0x4000 {
        (diff - 1) as u16
    } else {
        diff as u16
    }
}

/// The double-precision product of the SP words `a` and `k`: the product of
/// the magnitudes, complemented where the signs differ. A zero product of
/// factors of one sign is plus zero; of factors of different signs it is
/// minus zero where `a` is the zero and `k` is not, and plus zero otherwise.
pub open spec fn spec_mp(a: u16, k: u16) -> u32 {
    let a_mag = spec_s15_abs(a) % 0x4000;
    let k_mag = spec_s15_abs(k) % 0x4000;
    let res: u32 = (a_mag * k_mag) as u32;
    if sp_negative(a) == sp_negative(k) {
        res
    } else if res == 0 {
        if a_mag == 0 && k_mag != 0 {
            DP_MINUS_ZERO
        } else {
            0
        }
    } else {
        (DP_MINUS_ZERO - res) as u32
    }
}

/// What DAS leaves: the two words of the sum, and the word for A that tells
/// of an overflow of the sum.
pub struct DasSum {
    pub upper: u16,
    pub lower: u16,
    pub indicator: u16,
}

/// The double sum of the S16 pairs `(a, l)` and `(w1, w2)`: the lower words
/// are added, an overflow of theirs is carried into the sum of the upper
/// words and corrected; the indicator is plus one for a positive overflow
/// of the upper sum, minus one for a negative overflow, zero otherwise.
pub open spec fn spec_das(a: u16, l: u16, w1: u16, w2: u16) -> DasSum {
    let up0 = spec_s16_add(a, w1);
    let lo0 = spec_s16_add(l, w2);
    let (up, lo) = match spec_overflow_of(lo0) {
        AgcOverflow::Positive => (spec_s16_add(up0, 0o00001), spec_overflow_correction(lo0)),
        AgcOverflow::Negative => (spec_s16_add(up0, 0o177776), spec_overflow_correction(lo0)),
        AgcOverflow::Neither => (up0, lo0),
    };
    DasSum {
        upper: up,
        lower: lo,
        indicator: match spec_overflow_of(up) {
            AgcOverflow::Positive => 0o000001,
            AgcOverflow::Negative => 0o177776,
            AgcOverflow::Neither => 0o000000,
        },
    }
}

/// Whether the SP word `w` is plus or minus zero: its magnitude is 0.
pub open spec fn is_sp_zero(w: u16) -> bool {
    spec_s15_abs(w) == 0
}

/// The SP word of magnitude `mag`, minus where `negative`.
pub open spec fn spec_sp_of(negative: bool, mag: u16) -> u16 {
    if negative {
        (0o77777 - mag % 0x8000) as u16
    } else {
        mag % 0x8000
    }
}

/// What DV leaves in A and in L; `None` where a register keeps its word.
pub struct DvOutcome {
    pub a: Option<u16>,
    pub l: Option<u16>,
}

/// The sign of the dividend `(upper, lower)`: that of the upper word, or of
/// the lower word where the upper word is a zero.
pub open spec fn dividend_negative(upper: u16, lower: u16) -> bool {
    if is_sp_zero(upper) {
        sp_negative(lower)
    } else {
        sp_negative(upper)
    }
}

/// The quotient and remainder of the double-precision dividend
/// `(upper, lower)` by the SP word `divisor`, as SP words. The quotient's
/// sign is minus where the signs of dividend and divisor differ; the
/// remainder has the sign of the dividend.
///
/// A zero dividend gives a zero quotient, or the largest quotient where the
/// divisor is zero too, and keeps L. A dividend whose upper word has the
/// magnitude of the divisor gives the largest quotient and the upper word
/// as remainder where the lower word is zero, and is left alone otherwise,
/// as is any division by zero. In all other cases the magnitude of the
/// dividend is divided by that of the divisor; the quotient's magnitude is
/// kept in 14 bits.
pub open spec fn spec_dv(upper: u16, lower: u16, divisor: u16) -> DvOutcome {
    let quotient_negative = dividend_negative(upper, lower) != sp_negative(divisor);
    if is_sp_zero(upper) && is_sp_zero(lower) {
        if !is_sp_zero(divisor) {
            DvOutcome { a: Some(spec_sp_of(quotient_negative, 0)), l: None }
        } else {
            DvOutcome { a: Some(spec_sp_of(quotient_negative, 0o37777)), l: None }
        }
    } else if spec_s15_abs(upper) == spec_s15_abs(divisor) {
        if is_sp_zero(lower) {
            DvOutcome { a: Some(spec_sp_of(quotient_negative, 0o37777)), l: Some(upper) }
        } else {
            DvOutcome { a: None, l: None }
        }
    } else if is_sp_zero(divisor) {
        DvOutcome { a: None, l: None }
    } else {
        let dividend = spec_agc_dp_to_cpu(spec_convert_to_dp(upper, lower));
        let mag: int = if dividend < 0 {
            -dividend
        } else {
            dividend
        };
        let by: int = spec_s15_abs(divisor) as int;
        DvOutcome {
            a: Some(spec_sp_of(quotient_negative, ((mag / by) % 0x4000) as u16)),
            l: Some(spec_sp_of(dividend_negative(upper, lower), (mag % by) as u16)),
        }
    }
}

/// The word that follows `val` when a register counts up.
pub fn incr_value(wide: bool, val: u16) -> (r: u16)
    ensures
        r == spec_incr_value(wide, val),
{
    if wide {
        if val == 0o077777 {
            val
        } else if val == 0o177777 {
            0o000001
        } else {
            val + 1
        }
    } else {
        if val == 0o37777 {
            0o00000
        } else if val == 0o77777 {
            0o00001
        } else {
            ((val as u32 + 1) % 0x8000) as u16
        }
    }
}

/// What DIM writes for the S16 word `kval`.
pub fn dim_value(kval: u16) -> (r: Option<u16>)
    ensures
        r == spec_dim_value(kval),
{
    assert((kval & 0o40000 == 0o40000) == ((kval / 0x4000) % 2 == 1)) by (bit_vector);
    if kval == 0o177777 || kval == 0o00000 {
        None
    } else if kval & 0o40000 == 0o40000 {
        Some(kval + 1)
    } else if kval == 1 {
        Some(0o177777)
    } else {
        Some(kval - 1)
    }
}

/// The modular difference of two S16 words.
pub fn msu16(a: u16, k: u16) -> (r: u16)
    ensures
        r == spec_msu16(a, k),
{
    let sum: u32 = (!k) as u32 + a as u32 + 1;
    let res: u32 = sum & 0o177777;
    proof {
        lemma_and_le_u32(sum, 0o177777);
    }
    let back: u32 = res + 0o177777;
    assert(res == sum % 0x10000 && (res & 0o100000 == 0o100000) == (res >= 0x8000) && (res >= 1
        ==> back & 0o177777 == res - 1)) by (bit_vector)
        requires
            res == sum & 0o177777,
            back == res + 0o177777,
    ;
    assert((!k) as u32 == 0xFFFF - k) by (bit_vector);
    if res & 0o100000 == 0o100000 {
        (back & 0o177777) as u16
    } else {
        res as u16
    }
}

/// The modular difference of two SP words.
pub fn msu15(a: u16, k: u16) -> (r: u16)
    ensures
        r == spec_msu15(a, k),
{
    let kval: u16 = !k & 0o77777;
    let sum: u32 = kval as u32 + 1 + a as u32;
    let res: u32 = sum & 0o77777;
    proof {
        lemma_and_le_u32(sum, 0o77777);
    }
    let back: u32 = res + 0o77777;
    assert(res == sum % 0x8000 && (res & 0o40000 == 0o40000) == (res >= 0x4000) && (res >= 1
        ==> back & 0o77777 == res - 1)) by (bit_vector)
        requires
            res == sum & 0o77777,
            back == res + 0o77777,
    ;
    assert(kval == 0x7FFF - k % 0x8000) by (bit_vector)
        requires
            kval == !k & 0o77777,
    ;
    if res & 0o40000 == 0o40000 {
        (back & 0o77777) as u16
    } else {
        res as u16
    }
}

/// The double-precision product of two SP words.
pub fn mp_product(a: u16, k: u16) -> (r: u32)
    ensures
        r == spec_mp(a, k),
{
    let a_abs: u16 = s15_abs(a);
    let k_abs: u16 = s15_abs(k);
    let a_mag: u16 = a_abs & 0o37777;
    let k_mag: u16 = k_abs & 0o37777;
    proof {
        assert(a_abs & 0o37777 == a_abs % 0x4000 && k_abs & 0o37777 == k_abs % 0x4000 && (a
            & 0o40000 == k & 0o40000) == (((a / 0x4000) % 2 == 1) == ((k / 0x4000) % 2 == 1)))
            by (bit_vector);
        assert(a_mag * k_mag <= 0o37777 * 0o37777) by (nonlinear_arith)
            requires
                a_mag <= 0o37777,
                k_mag <= 0o37777,
        ;
    }
    let res: u32 = a_mag as u32 * k_mag as u32;
    proof {
        assert((!res) & 0o3777777777 == 0o3777777777 - res) by (bit_vector)
            requires
                res <= 0o1777777777,
        ;
    }
    if a & 0o40000 == k & 0o40000 {
        res
    } else if res == 0 {
        if a_mag == 0 && k_mag != 0 {
            DP_MINUS_ZERO
        } else {
            0
        }
    } else {
        (!res) & DP_MINUS_ZERO
    }
}

/// The double sum of two S16 pairs.
pub fn das_sum(a: u16, l: u16, w1: u16, w2: u16) -> (r: DasSum)
    ensures
        r == spec_das(a, l, w1, w2),
{
    let mut res_upper: u16 = s16_add(a, w1);
    let mut res_lower: u16 = s16_add(l, w2);
    match overflow_of(res_lower) {
        AgcOverflow::Positive => {
            res_upper = s16_add(res_upper, 0o00001);
            res_lower = overflow_correction(res_lower);
        },
        AgcOverflow::Negative => {
            res_upper = s16_add(res_upper, 0o177776);
            res_lower = overflow_correction(res_lower);
        },
        AgcOverflow::Neither => {},
    }
    let indicator: u16 = match overflow_of(res_upper) {
        AgcOverflow::Positive => 0o000001,
        AgcOverflow::Negative => 0o177776,
        AgcOverflow::Neither => 0o000000,
    };
    DasSum { upper: res_upper, lower: res_lower, indicator: indicator }
}

/// The SP word of magnitude `mag`, minus where `negative`.
pub fn sp_of(negative: bool, mag: u16) -> (r: u16)
    ensures
        r == spec_sp_of(negative, mag),
{
    assert((!mag) & 0o77777 == 0o77777 - mag % 0x8000 && mag & 0o77777 == mag % 0x8000)
        by (bit_vector);
    if negative {
        (!mag) & 0o77777
    } else {
        mag & 0o77777
    }
}

/// Divides the double-precision dividend `(upper, lower)` by `divisor`.
pub fn dv_result(upper: u16, lower: u16, divisor: u16) -> (r: DvOutcome)
    ensures
        r == spec_dv(upper, lower, divisor),
{
    let upper_zero: bool = s15_abs(upper) == 0;
    let lower_zero: bool = s15_abs(lower) == 0;
    let divisor_zero: bool = s15_abs(divisor) == 0;
    assert((divisor & 0o40000 == 0o40000) == ((divisor / 0x4000) % 2 == 1) && (lower & 0o40000
        == 0o40000) == ((lower / 0x4000) % 2 == 1) && (upper & 0o40000 == 0o40000) == ((upper
        / 0x4000) % 2 == 1)) by (bit_vector);
    let divisor_negative: bool = divisor & 0o40000 == 0o40000;
    let dividend_negative: bool = if upper_zero {
        lower & 0o40000 == 0o40000
    } else {
        upper & 0o40000 == 0o40000
    };
    let quotient_negative: bool = dividend_negative != divisor_negative;

    if upper_zero && lower_zero {
        if !divisor_zero {
            return DvOutcome { a: Some(sp_of(quotient_negative, 0)), l: None };
        } else {
            return DvOutcome { a: Some(sp_of(quotient_negative, 0o37777)), l: None };
        }
    }
    if s15_abs(upper) == s15_abs(divisor) {
        if lower_zero {
            return DvOutcome { a: Some(sp_of(quotient_negative, 0o37777)), l: Some(upper) };
        } else {
            return DvOutcome { a: None, l: None };
        }
    }
    if divisor_zero {
        return DvOutcome { a: None, l: None };
    }
    let dividend: i32 = agc_dp_to_cpu(convert_to_dp(upper, lower));
    let mag: u32 = if dividend < 0 {
        (-dividend) as u32
    } else {
        dividend as u32
    };
    let by: u32 = s15_abs(divisor) as u32;
    let whole: u32 = mag / by;
    assert(whole & 0o37777 == whole % 0x4000) by (bit_vector);
    let quotient: u16 = (whole & 0o37777) as u16;
    let remainder: u16 = (mag % by) as u16;
    DvOutcome {
        a: Some(sp_of(quotient_negative, quotient)),
        l: Some(sp_of(dividend_negative, remainder)),
    }
}

/// The address of the upper word of a pair, from the address field of a
/// double-precision instruction, which names the word after it. An address
/// field of 0 names the pair at 0.
pub open spec fn pair_addr(k: usize) -> usize {
    if k > 0 {
        (k - 1) as usize
    } else {
        k
    }
}

/// The address of the upper word of the pair that a double-precision
/// instruction names.
pub fn pair_address(k: usize) -> (r: usize)
    ensures
        r == pair_addr(k),
{
    if k > 0 {
        k - 1
    } else {
        k
    }
}

impl CpuView {
    /// AD: the word at K is added to A, with end-around carry.
    #[verifier::opaque]
    pub open spec fn ad(self, inst: AgcInst) -> CpuView {
        let k = inst.kaddr();
        self.touch(k).store_s16(REG_A, spec_s16_add(self.peek_s16(REG_A), self.peek_s16(k))).edit(
            k,
        )
    }

    /// ADS: the word at K is added to A, and the sum goes to both.
    #[verifier::opaque]
    pub open spec fn ads(self, inst: AgcInst) -> CpuView {
        let k = inst.kaddr_ram();
        let sum = spec_s16_add(self.peek_s16(REG_A), self.peek_s16(k));
        self.touch(k).store_s16(REG_A, sum).store_s16(k, sum)
    }

    /// DAS: the pair (A, L) is added to the pair at K; L becomes zero and A
    /// tells of the overflow.
    #[verifier::opaque]
    pub open spec fn das(self, inst: AgcInst) -> CpuView {
        let k = pair_addr(inst.kaddr_ram());
        let sum = spec_das(
            self.peek_s16(REG_A),
            self.peek_s16(REG_L),
            self.peek_s16(k),
            self.peek_s16((k + 1) as usize),
        );
        self.touch(k).touch((k + 1) as usize).store_s16(REG_L, 0).store_s16(
            REG_A,
            sum.indicator,
        ).store_s16(k, sum.upper).store_s16((k + 1) as usize, sum.lower)
    }

    /// AUG: the magnitude of the word at K is raised by one.
    #[verifier::opaque]
    pub open spec fn aug(self, inst: AgcInst) -> CpuView {
        let k = inst.kaddr_ram();
        if is_wide_addr(k) {
            self.touch(k).store_s16(k, spec_aug_s16(self.peek_s16(k)))
        } else {
            self.touch(k).store_s15(k, spec_aug_s15(self.peek_s15(k)))
        }
    }

    /// MP: A is multiplied by the word at K; the product goes to (A, L).
    #[verifier::opaque]
    pub open spec fn mp(self, inst: AgcInst) -> CpuView {
        let k = inst.kaddr();
        self.touch(k).store_dp(REG_A, spec_mp(self.peek_s15(REG_A), self.peek_s15(k)))
    }

    /// INCR: the word at K counts up by one.
    #[verifier::opaque]
    pub open spec fn incr(self, inst: AgcInst) -> CpuView {
        let k = inst.kaddr_ram();
        self.touch(k).store(k, spec_incr_value(is_wide_addr(k), self.peek(k)))
    }

    /// SU: the word at K is subtracted from A: its complement is added.
    #[verifier::opaque]
    pub open spec fn su(self, inst: AgcInst) -> CpuView {
        let k = inst.kaddr_ram();
        self.touch(k).store_s16(
            REG_A,
            spec_s16_add(self.peek_s16(REG_A), !self.peek_s16(k)),
        ).edit(k)
    }

    /// MSU: A becomes the modular difference of A and the word at K.
    #[verifier::opaque]
    pub open spec fn msu(self, inst: AgcInst) -> CpuView {
        let k = inst.kaddr_ram();
        if is_wide_addr(k) {
            self.touch(k).store_s16(
                REG_A,
                spec_msu16(self.peek_s16(REG_A), self.peek_s16(k)),
            ).edit(k)
        } else {
            self.touch(k).store_s15(
                REG_A,
                spec_msu15(self.peek_s15(REG_A), self.peek_s15(k)),
            ).edit(k)
        }
    }

    /// DIM: the magnitude of the word at K is lowered by one; a zero stays.
    #[verifier::opaque]
    pub open spec fn dim(self, inst: AgcInst) -> CpuView {
        let k = inst.kaddr_ram();
        match spec_dim_value(self.peek_s16(k)) {
            Some(v) => self.touch(k).store_s16(k, v),
            None => self.touch(k),
        }
    }

    /// DV: the pair (A, L) is divided by the word at K; the quotient goes
    /// to A, the remainder to L.
    #[verifier::opaque]
    pub open spec fn dv(self, inst: AgcInst) -> CpuView {
        let k = inst.kaddr_ram();
        let out = spec_dv(self.peek_s15(REG_A), self.peek_s15(REG_L), self.peek_s15(k));
        let with_a = match out.a {
            Some(a) => self.touch(k).store_s15(REG_A, a),
            None => self.touch(k),
        };
        match out.l {
            Some(l) => with_a.store_s15(REG_L, l),
            None => with_a,
        }
    }
}

pub trait AgcArith {
    fn ad(&mut self, inst: &AgcInst) -> u16;

    fn ads(&mut self, inst: &AgcInst) -> u16;

    fn das(&mut self, inst: &AgcInst) -> u16;

    fn aug(&mut self, inst: &AgcInst) -> u16;

    fn mp(&mut self, inst: &AgcInst) -> u16;

    fn su(&mut self, inst: &AgcInst) -> u16;

    fn msu(&mut self, inst: &AgcInst) -> u16;

    fn incr(&mut self, inst: &AgcInst) -> u16;

    fn dim(&mut self, inst: &AgcInst) -> u16;

    fn dv(&mut self, inst: &AgcInst) -> u16;
}

impl<D: AgcIoPeriph, K: AgcIoPeriph> AgcArith for AgcCpu<D, K> {
    fn ad(&mut self, inst: &AgcInst) -> (cycles: u16)
        ensures
            old(self)@.ram_clean() ==> final(self)@.ram_clean(),
            final(self)@ == old(self)@.ad(*inst),
            cycles == 2,
    {
        proof {
            reveal(CpuView::ad);
        }
        let a: u16 = self.read_s16(REG_A);
        let k: u16 = self.read_s16(inst.get_kaddr());
        self.write_s16(REG_A, s16_add(a, k));
        self.check_editing(inst.get_kaddr());
        2
    }

    fn ads(&mut self, inst: &AgcInst) -> (cycles: u16)
        ensures
            old(self)@.ram_clean() ==> final(self)@.ram_clean(),
            final(self)@ == old(self)@.ads(*inst),
            cycles == 2,
    {
        proof {
            reveal(CpuView::ads);
        }
        let a: u16 = self.read_s16(REG_A);
        let k: u16 = self.read_s16(inst.get_kaddr_ram());
        let newval: u16 = s16_add(a, k);
        self.write_s16(REG_A, newval);
        self.write_s16(inst.get_kaddr_ram(), newval);
        2
    }

    fn das(&mut self, inst: &AgcInst) -> (cycles: u16)
        ensures
            old(self)@.ram_clean() ==> final(self)@.ram_clean(),
            final(self)@ == old(self)@.das(*inst),
            cycles == 3,
    {
        proof {
            reveal(CpuView::das);
        }
        let k: usize = pair_address(inst.get_kaddr_ram());
        let a: u16 = self.read_s16(REG_A);
        let l: u16 = self.read_s16(REG_L);
        let word1: u16 = self.read_s16(k);
        let word2: u16 = self.read_s16(k + 1);
        let sum: DasSum = das_sum(a, l, word1, word2);
        self.write_s16(REG_L, 0);
        self.write_s16(REG_A, sum.indicator);
        self.write_s16(k, sum.upper);
        self.write_s16(k + 1, sum.lower);
        3
    }

    fn aug(&mut self, inst: &AgcInst) -> (cycles: u16)
        ensures
            old(self)@.ram_clean() ==> final(self)@.ram_clean(),
            final(self)@ == old(self)@.aug(*inst),
            cycles == 2,
    {
        proof {
            reveal(CpuView::aug);
        }
        let k: usize = inst.get_kaddr_ram();
        if k == REG_A || k == REG_Q {
            let v: u16 = self.read_s16(k);
            let newv: u16 = if v >= 0o100000 {
                v - 1
            } else {
                v + 1
            };
            self.write_s16(k, newv);
        } else {
            let v: u16 = self.read_s15(k);
            proof {
                lemma_and_le_u16(old(self)@.peek(k), 0x7FFF);
            }
            let newv: u16 = if v >= 0o40000 {
                v - 1
            } else {
                v + 1
            };
            self.write_s15(k, newv);
        }
        2
    }

    fn mp(&mut self, inst: &AgcInst) -> (cycles: u16)
        ensures
            old(self)@.ram_clean() ==> final(self)@.ram_clean(),
            final(self)@ == old(self)@.mp(*inst),
            cycles == 3,
    {
        proof {
            reveal(CpuView::mp);
        }
        let a: u16 = self.read_s15(REG_A);
        let k: u16 = self.read_s15(inst.get_kaddr());
        self.write_dp(REG_A, mp_product(a, k));
        3
    }

    fn incr(&mut self, inst: &AgcInst) -> (cycles: u16)
        ensures
            old(self)@.ram_clean() ==> final(self)@.ram_clean(),
            final(self)@ == old(self)@.incr(*inst),
            cycles == 2,
    {
        proof {
            reveal(CpuView::incr);
        }
        let k: usize = inst.get_kaddr_ram();
        let val: u16 = self.read(k);
        let kval: u16 = incr_value(k == REG_A || k == REG_Q, val);
        self.write(k, kval);
        2
    }

    fn su(&mut self, inst: &AgcInst) -> (cycles: u16)
        ensures
            old(self)@.ram_clean() ==> final(self)@.ram_clean(),
            final(self)@ == old(self)@.su(*inst),
            cycles == 2,
    {
        proof {
            reveal(CpuView::su);
        }
        let a: u16 = self.read_s16(REG_A);
        let kval: u16 = !self.read_s16(inst.get_kaddr_ram());
        self.write_s16(REG_A, s16_add(a, kval));
        self.check_editing(inst.get_kaddr_ram());
        2
    }

    fn msu(&mut self, inst: &AgcInst) -> (cycles: u16)
        ensures
            old(self)@.ram_clean() ==> final(self)@.ram_clean(),
            final(self)@ == old(self)@.msu(*inst),
            cycles == 2,
    {
        proof {
            reveal(CpuView::msu);
        }
        let k: usize = inst.get_kaddr_ram();
        if k == REG_A || k == REG_Q {
            let kval: u16 = self.read_s16(k);
            let aval: u16 = self.read_s16(REG_A);
            self.write_s16(REG_A, msu16(aval, kval));
        } else {
            let kval: u16 = self.read_s15(k);
            let aval: u16 = self.read_s15(REG_A);
            self.write_s15(REG_A, msu15(aval, kval));
        }
        self.check_editing(k);
        2
    }

    fn dim(&mut self, inst: &AgcInst) -> (cycles: u16)
        ensures
            old(self)@.ram_clean() ==> final(self)@.ram_clean(),
            final(self)@ == old(self)@.dim(*inst),
            cycles == 2,
    {
        proof {
            reveal(CpuView::dim);
        }
        let k: usize = inst.get_kaddr_ram();
        let kval: u16 = self.read_s16(k);
        match dim_value(kval) {
            Some(v) => {
                self.write_s16(k, v);
            },
            None => {},
        }
        2
    }

    fn dv(&mut self, inst: &AgcInst) -> (cycles: u16)
        ensures
            old(self)@.ram_clean() ==> final(self)@.ram_clean(),
            final(self)@ == old(self)@.dv(*inst),
            cycles == 6,
    {
        proof {
            reveal(CpuView::dv);
        }
        let divisor: u16 = self.read_s15(inst.get_kaddr_ram());
        let dividend_upper: u16 = self.read_s15(REG_A);
        let dividend_lower: u16 = self.read_s15(REG_L);
        let out: DvOutcome = dv_result(dividend_upper, dividend_lower, divisor);
        match out.a {
            Some(a) => {
                self.write_s15(REG_A, a);
            },
            None => {},
        }
        match out.l {
            Some(l) => {
                self.write_s15(REG_L, l);
            },
            None => {},
        }
        6
    }
}

/// The pair of SP words of one sign that stands for the same integer as
/// the pair `(upper, lower)`: the magnitude is split at 14 bits, and both
/// words carry the sign of the integer. A pair of zeros takes the sign of
/// the lower word.
pub open spec fn spec_canonical_pair(upper: u16, lower: u16) -> (u16, u16) {
    let v = spec_dp_value(upper, lower);
    if v > 0 {
        ((v / 16384) as u16, (v % 16384) as u16)
    } else if v < 0 {
        ((0o77777 - (-v) / 16384) as u16, (0o77777 - (-v) % 16384) as u16)
    } else if sp_negative(lower) {
        (0o77777u16, 0o77777u16)
    } else {
        (0u16, 0u16)
    }
}

/// Packing a pair of SP words and splitting the result again gives the pair
/// of one sign that stands for the same integer, and the double-precision
/// word stands for that integer too.
pub proof fn lemma_pack_then_unpack(upper: u16, lower: u16)
    requires
        upper <= 0o77777,
        lower <= 0o77777,
    ensures
        spec_dp_unpack(spec_convert_to_dp(upper, lower)) == spec_canonical_pair(upper, lower),
        spec_agc_dp_to_cpu(spec_convert_to_dp(upper, lower)) == spec_dp_value(upper, lower),
        -0o1777777777 <= spec_dp_value(upper, lower) <= 0o1777777777,
{
    let v = spec_dp_value(upper, lower);
    if v < 0 {
        let m = -v;
        let val: u32 = (DP_MINUS_ZERO - m) as u32;
        assert(val / 16384 == 0o77777 - m / 16384);
        assert(val % 16384 == 0o37777 - m % 16384);
    }
}

/// The sign of an SP word made of a magnitude of 14 bits is the sign it was
/// given, and its magnitude is that magnitude.
pub proof fn lemma_sp_of_sign(negative: bool, mag: u16)
    requires
        mag <= 0o37777,
    ensures
        sp_negative(spec_sp_of(negative, mag)) == negative,
        spec_sp_of(negative, mag) <= 0o77777,
        spec_s15_abs(spec_sp_of(negative, mag)) == mag,
{
}

/// The magnitude of an SP word fits in 14 bits, is the magnitude of the
/// integer that the word stands for, and is 0 for the two zeros only.
pub proof fn lemma_sp_magnitude(w: u16)
    requires
        w <= 0o77777,
    ensures
        spec_s15_abs(w) <= 0o37777,
        spec_s15_abs(w) == if spec_agc_sp_to_cpu(w) < 0 {
            -spec_agc_sp_to_cpu(w)
        } else {
            spec_agc_sp_to_cpu(w)
        },
        spec_s15_abs(w) == 0 <==> (w == 0o77777 || w == 0o00000),
        sp_negative(w) <==> w >= 0o40000,
{
}

/// Division where the upper word of the dividend is smaller in magnitude
/// than the divisor: A takes a quotient whose sign is minus exactly where
/// the signs of A and of the divisor differ, and L is left with the sign of
/// the dividend. The sign of the dividend is that of A, so a zero in A must
/// agree in sign with L.
pub proof fn lemma_dv_signs(upper: u16, lower: u16, divisor: u16)
    requires
        upper <= 0o77777,
        lower <= 0o77777,
        divisor <= 0o77777,
        spec_s15_abs(upper) < spec_s15_abs(divisor),
        is_sp_zero(upper) ==> (sp_negative(upper) == sp_negative(lower)),
    ensures
        spec_dv(upper, lower, divisor).a is Some,
        sp_negative(spec_dv(upper, lower, divisor).a->Some_0) == (sp_negative(upper)
            != sp_negative(divisor)),
        match spec_dv(upper, lower, divisor).l {
            Some(l) => sp_negative(l) == sp_negative(upper),
            None => sp_negative(lower) == sp_negative(upper),
        },
{
    let qneg = dividend_negative(upper, lower) != sp_negative(divisor);
    lemma_sp_of_sign(qneg, 0);
    lemma_sp_of_sign(qneg, 0o37777);
    lemma_sp_magnitude(divisor);
    if !(is_sp_zero(upper) && is_sp_zero(lower)) {
        let dividend = spec_agc_dp_to_cpu(spec_convert_to_dp(upper, lower));
        let mag: int = if dividend < 0 {
            -dividend
        } else {
            dividend
        };
        let by: int = spec_s15_abs(divisor) as int;
        lemma_sp_of_sign(qneg, ((mag / by) % 0x4000) as u16);
        assert(0 <= mag % by < by);
        lemma_sp_of_sign(dividend_negative(upper, lower), (mag % by) as u16);
    }
}

/// Division where the upper word of the dividend is smaller in magnitude
/// than the divisor loses nothing: the quotient that goes to A is the whole
/// quotient of the magnitudes, and the remainder that goes to L is their
/// whole remainder.
pub proof fn lemma_dv_is_exact(upper: u16, lower: u16, divisor: u16)
    requires
        upper <= 0o77777,
        lower <= 0o77777,
        divisor <= 0o77777,
        spec_s15_abs(upper) < spec_s15_abs(divisor),
        !(is_sp_zero(upper) && is_sp_zero(lower)),
    ensures
        ({
            let v = spec_dp_value(upper, lower);
            let mag = if v < 0 {
                -v
            } else {
                v
            };
            let by = spec_s15_abs(divisor) as int;
            &&& 0 <= mag / by <= 0o37777
            &&& spec_dv(upper, lower, divisor).a == Some(
                spec_sp_of(
                    dividend_negative(upper, lower) != sp_negative(divisor),
                    (mag / by) as u16,
                ),
            )
            &&& spec_dv(upper, lower, divisor).l == Some(
                spec_sp_of(dividend_negative(upper, lower), (mag % by) as u16),
            )
        }),
{
    lemma_pack_then_unpack(upper, lower);
    lemma_sp_magnitude(upper);
    lemma_sp_magnitude(lower);
    lemma_sp_magnitude(divisor);
    let v = spec_dp_value(upper, lower);
    let mag: int = if v < 0 {
        -v
    } else {
        v
    };
    let by: int = spec_s15_abs(divisor) as int;
    let up: int = spec_s15_abs(upper) as int;
    assert(mag < by * 16384) by {
        assert(mag <= up * 16384 + 16383);
        assert((up + 1) * 16384 <= by * 16384) by (nonlinear_arith)
            requires
                up + 1 <= by,
        ;
    }
    assert(0 <= mag / by < 16384) by (nonlinear_arith)
        requires
            0 <= mag < by * 16384,
            by > 0,
    ;
}

/// The double-precision product of two SP words stands for the product of
/// what the words stand for.
pub proof fn lemma_mp_is_product(a: u16, k: u16)
    requires
        a <= 0o77777,
        k <= 0o77777,
    ensures
        spec_agc_dp_to_cpu(spec_mp(a, k)) == spec_agc_sp_to_cpu(a) * spec_agc_sp_to_cpu(k),
{
    lemma_sp_magnitude(a);
    lemma_sp_magnitude(k);
    let am: int = spec_s15_abs(a) as int;
    let km: int = spec_s15_abs(k) as int;
    let x = spec_agc_sp_to_cpu(a);
    let y = spec_agc_sp_to_cpu(k);
    assert(0 <= am * km <= 0o37777 * 0o37777) by (nonlinear_arith)
        requires
            0 <= am <= 0o37777,
            0 <= km <= 0o37777,
    ;
    assert(am * km == 0 <==> (am == 0 || km == 0)) by (nonlinear_arith)
        requires
            0 <= am,
            0 <= km,
    ;
    assert((sp_negative(a) == sp_negative(k)) ==> x * y == am * km) by (nonlinear_arith)
        requires
            (x == am && y == km) || (x == -am && y == -km) || am == 0 || km == 0 || (!(
            sp_negative(a) == sp_negative(k))),
            am == 0 ==> x == 0,
            km == 0 ==> y == 0,
    ;
    assert((sp_negative(a) != sp_negative(k)) ==> x * y == -(am * km)) by (nonlinear_arith)
        requires
            (x == am && y == -km) || (x == -am && y == km) || am == 0 || km == 0 || (sp_negative(
                a,
            ) == sp_negative(k)),
            am == 0 ==> x == 0,
            km == 0 ==> y == 0,
    ;
}

} // verus!
