//! Bounds on masked and shifted words, for use where a proof needs the
//! range of a bit pattern.

use vstd::prelude::*;

verus! {

/// A masked 16-bit word is no larger than its mask, nor than the word.
pub proof fn lemma_and_le_u16(x: u16, m: u16)
    by (bit_vector)
    ensures
        x & m <= m,
        x & m <= x,
{
}

/// A masked 32-bit word is no larger than its mask, nor than the word.
pub proof fn lemma_and_le_u32(x: u32, m: u32)
    by (bit_vector)
    ensures
        x & m <= m,
        x & m <= x,
{
}

} // verus!
