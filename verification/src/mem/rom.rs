//! Fixed memory: 36 banks of 1024 words, held as the rope stores them. A
//! rope word carries its 15 data bits above a parity bit, and the rope keeps
//! banks 2 and 3 ahead of banks 0 and 1.

use crate::consts::ROM_BANK_NUM_WORDS;
use crate::consts::ROM_NUM_BANKS;
use vstd::prelude::*;

verus! {

/// Whether `(bank, offset)` names a word of fixed memory.
pub open spec fn rom_cell(bank: int, offset: int) -> bool {
    0 <= bank < 36 && 0 <= offset < 1024
}

/// The place in the rope of the bank `bank`: the first four banks are
/// stored in the order 2, 3, 0, 1, the others in their own places.
pub open spec fn rope_bank(bank: int) -> int {
    if bank == 0 {
        2
    } else if bank == 1 {
        3
    } else if bank == 2 {
        0
    } else if bank == 3 {
        1
    } else {
        bank
    }
}

/// The data bits of a rope word: the word without its parity bit.
pub open spec fn rope_data(word: u16) -> u16 {
    (word >> 1) & 0x7FFF
}

/// The rope word that carries the low 15 bits of `value`, parity bit clear.
pub open spec fn rope_word(value: u16) -> u16 {
    value << 1
}

/// The rope word made of two bytes of a rope image, high byte first.
pub open spec fn rope_word_of_bytes(hi: u8, lo: u8) -> u16 {
    ((hi as u16) << 8) | (lo as u16)
}

/// What a read of `(bank, offset)` gives in the rope `rope`; 0 outside the
/// memory.
pub open spec fn rom_read(rope: Seq<Seq<u16>>, bank: int, offset: int) -> u16 {
    if !rom_cell(bank, offset) {
        0
    } else {
        rope_data(rope[rope_bank(bank)][offset])
    }
}

/// The rope after the low 15 bits of `value` are stored at `(bank, offset)`;
/// a write outside the memory changes nothing.
pub open spec fn rom_write(rope: Seq<Seq<u16>>, bank: int, offset: int, value: u16) -> Seq<
    Seq<u16>,
> {
    if !rom_cell(bank, offset) {
        rope
    } else {
        rope.update(rope_bank(bank), rope[rope_bank(bank)].update(offset, rope_word(value)))
    }
}

/// Whether `rope` has the shape of the fixed memory.
pub open spec fn rom_shaped(rope: Seq<Seq<u16>>) -> bool {
    &&& rope.len() == 36
    &&& forall|b: int| 0 <= b < 36 ==> (#[trigger] rope[b]).len() == 1024
}

/// The rope in which every word is 0.
pub open spec fn rom_zeroed() -> Seq<Seq<u16>> {
    Seq::new(36, |b: int| Seq::new(1024, |o: int| 0u16))
}

/// The rope that the nested array `program` holds.
pub open spec fn rope_of(program: [[u16; 1024]; 36]) -> Seq<Seq<u16>> {
    Seq::new(36, |b: int| program[b]@)
}

pub struct AgcRom {
    pub program: [[u16; ROM_BANK_NUM_WORDS]; ROM_NUM_BANKS],
}

impl View for AgcRom {
    type V = Seq<Seq<u16>>;

    open spec fn view(&self) -> Seq<Seq<u16>> {
        rope_of(self.program)
    }
}

/// The place in the rope of the bank `bank_idx`.
fn bank_in_rope(bank_idx: usize) -> (r: usize)
    requires
        bank_idx < 36,
    ensures
        r == rope_bank(bank_idx as int),
        r < 36,
{
    if bank_idx == 0 {
        2
    } else if bank_idx == 1 {
        3
    } else if bank_idx == 2 {
        0
    } else if bank_idx == 3 {
        1
    } else {
        bank_idx
    }
}

/// Makes a rope word of two bytes of a rope image, high byte first.
pub fn rope_word_from_bytes(hi: u8, lo: u8) -> (r: u16)
    ensures
        r == rope_word_of_bytes(hi, lo),
{
    ((hi as u16) << 8) | (lo as u16)
}

/// Number of bytes that one bank takes in a rope image.
pub const ROPE_BANK_BYTES: usize = 2048;

/// The word at `(bank, offset)` of the rope that the image `bytes` holds:
/// the image stores the banks one after the other, each word in two bytes,
/// high byte first; a bank that the image does not hold in full is 0.
pub open spec fn rope_image_word(bytes: Seq<u8>, bank: int, offset: int) -> u16 {
    if (bank + 1) * 2048 <= bytes.len() {
        rope_word_of_bytes(bytes[bank * 2048 + 2 * offset], bytes[bank * 2048 + 2 * offset + 1])
    } else {
        0
    }
}

/// Reads a rope from the bytes of a rope image.
pub fn load_rope(bytes: &[u8]) -> (rope: [[u16; ROM_BANK_NUM_WORDS]; ROM_NUM_BANKS])
    ensures
        forall|b: int, o: int|
            rom_cell(b, o) ==> (#[trigger] rope[b][o]) == rope_image_word(bytes@, b, o),
{
    let mut rope: [[u16; ROM_BANK_NUM_WORDS]; ROM_NUM_BANKS] = [[0; ROM_BANK_NUM_WORDS];
        ROM_NUM_BANKS];
    let mut bank: usize = 0;
    while bank < ROM_NUM_BANKS && bytes.len() / ROPE_BANK_BYTES > bank
        invariant
            bank <= 36,
            forall|b: int, o: int|
                0 <= b < bank && 0 <= o < 1024 ==> (#[trigger] rope[b][o]) == rope_image_word(
                    bytes@,
                    b,
                    o,
                ),
            forall|b: int, o: int| bank <= b < 36 && 0 <= o < 1024 ==> (#[trigger] rope[b][o]) == 0,
            bank * 2048 <= bytes.len(),
        decreases 36 - bank,
    {
        let base: usize = bank * ROPE_BANK_BYTES;
        let mut word: usize = 0;
        while word < ROM_BANK_NUM_WORDS
            invariant
                bank < 36,
                word <= 1024,
                base == bank * 2048,
                base + 2048 <= bytes.len(),
                forall|b: int, o: int|
                    0 <= b < bank && 0 <= o < 1024 ==> (#[trigger] rope[b][o])
                        == rope_image_word(bytes@, b, o),
                forall|b: int, o: int|
                    bank < b < 36 && 0 <= o < 1024 ==> (#[trigger] rope[b][o]) == 0,
                forall|o: int|
                    0 <= o < word ==> (#[trigger] rope[bank as int][o]) == rope_image_word(
                        bytes@,
                        bank as int,
                        o,
                    ),
                forall|o: int| word <= o < 1024 ==> (#[trigger] rope[bank as int][o]) == 0,
            decreases 1024 - word,
        {
            rope[bank][word] = rope_word_from_bytes(
                bytes[base + 2 * word],
                bytes[base + 2 * word + 1],
            );
            word = word + 1;
        }
        bank = bank + 1;
    }
    rope
}

impl AgcRom {
    /// A fixed memory that holds the rope `program`.
    pub fn new(program: &[[u16; ROM_BANK_NUM_WORDS]; ROM_NUM_BANKS]) -> (r: AgcRom)
        ensures
            r@ == rope_of(*program),
    {
        AgcRom { program: *program }
    }

    /// A fixed memory of zeros.
    pub fn blank() -> (r: AgcRom)
        ensures
            r@ == rom_zeroed(),
    {
        let r = AgcRom { program: [[0; ROM_BANK_NUM_WORDS]; ROM_NUM_BANKS] };
        assert(r@ =~~= rom_zeroed());
        r
    }

    /// Reads the word `bank_offset` of bank `bank_idx`.
    pub fn read(&self, bank_idx: usize, bank_offset: usize) -> (r: u16)
        ensures
            r == rom_read(self@, bank_idx as int, bank_offset as int),
    {
        if bank_idx >= ROM_NUM_BANKS || bank_offset >= ROM_BANK_NUM_WORDS {
            return 0x0;
        }
        let place: usize = bank_in_rope(bank_idx);
        (self.program[place][bank_offset] >> 1) & 0x7FFF
    }

    /// Stores `value` in the word `bank_offset` of bank `bank_idx`. The
    /// memory map calls this only where writes to fixed memory are enabled.
    pub fn write(&mut self, bank_idx: usize, bank_offset: usize, value: u16)
        ensures
            final(self)@ == rom_write(old(self)@, bank_idx as int, bank_offset as int, value),
    {
        if bank_idx >= ROM_NUM_BANKS || bank_offset >= ROM_BANK_NUM_WORDS {
            return ;
        }
        let place: usize = bank_in_rope(bank_idx);
        self.program[place][bank_offset] = value << 1;
        assert(self@ =~~= rom_write(old(self)@, bank_idx as int, bank_offset as int, value));
    }
}

/// A read of a word gives the low 15 bits of what was last stored there, and
/// no other word changes.
pub proof fn lemma_rom_read_after_write(
    rope: Seq<Seq<u16>>,
    bank: int,
    offset: int,
    value: u16,
    b: int,
    o: int,
)
    requires
        rom_shaped(rope),
        rom_cell(bank, offset),
    ensures
        rom_shaped(rom_write(rope, bank, offset, value)),
        rom_read(rom_write(rope, bank, offset, value), bank, offset) == value & 0x7FFF,
        (b != bank || o != offset) ==> rom_read(rom_write(rope, bank, offset, value), b, o)
            == rom_read(rope, b, o),
{
    assert(((value << 1) >> 1) & 0x7FFF == value & 0x7FFF) by (bit_vector);
}

} // verus!
