//! Erasable memory: eight banks of 256 words. A cell holds 15 bits, except
//! the two cells of bank 0 that shadow the accumulator and the return
//! register, which hold 16.

use crate::consts::cpu::REG_A;
use crate::consts::cpu::REG_Q;
use vstd::prelude::*;

verus! {

/// Number of erasable banks.
pub const RAM_NUM_BANKS: usize = 8;

/// Number of words in one erasable bank.
pub const RAM_BANK_SIZE: usize = 256;

/// Whether `(bank, offset)` names a cell of erasable memory.
pub open spec fn ram_cell(bank: int, offset: int) -> bool {
    0 <= bank < 8 && 0 <= offset < 256
}

/// Whether `(bank, offset)` names one of the two 16-bit cells.
pub open spec fn ram_wide_cell(bank: int, offset: int) -> bool {
    bank == 0 && (offset == REG_A || offset == REG_Q)
}

/// What a read of `(bank, offset)` gives in the memory `ram`: the cell as it
/// is for a 16-bit cell, its low 15 bits for another, 0 outside the memory.
pub open spec fn ram_read(ram: Seq<Seq<u16>>, bank: int, offset: int) -> u16 {
    if !ram_cell(bank, offset) {
        0
    } else if ram_wide_cell(bank, offset) {
        ram[bank][offset]
    } else {
        ram[bank][offset] & 0x7FFF
    }
}

/// The memory `ram` after `value` is written to `(bank, offset)`: a 16-bit
/// cell takes the value as it is, another its low 15 bits; a write outside
/// the memory changes nothing.
pub open spec fn ram_write(ram: Seq<Seq<u16>>, bank: int, offset: int, value: u16) -> Seq<
    Seq<u16>,
> {
    if !ram_cell(bank, offset) {
        ram
    } else if ram_wide_cell(bank, offset) {
        ram.update(bank, ram[bank].update(offset, value))
    } else {
        ram.update(bank, ram[bank].update(offset, value & 0x7FFF))
    }
}

/// Whether `ram` has the shape of the erasable memory.
pub open spec fn ram_shaped(ram: Seq<Seq<u16>>) -> bool {
    &&& ram.len() == 8
    &&& forall|b: int| 0 <= b < 8 ==> (#[trigger] ram[b]).len() == 256
}

/// Whether every 15-bit cell of `ram` has bit 15 clear.
pub open spec fn ram_sign_clean(ram: Seq<Seq<u16>>) -> bool {
    forall|b: int, o: int|
        ram_cell(b, o) && !ram_wide_cell(b, o) ==> (#[trigger] ram[b][o]) & 0x8000 == 0
}

/// The memory in which every cell holds 0.
pub open spec fn ram_zeroed() -> Seq<Seq<u16>> {
    Seq::new(8, |b: int| Seq::new(256, |o: int| 0u16))
}

/// The low 15 bits of a word have bit 15 clear, and cutting them to 15
/// bits again changes nothing.
pub proof fn lemma_low_15_bits(value: u16)
    by (bit_vector)
    ensures
        (value & 0x7FFF) & 0x8000 == 0,
        (value & 0x7FFF) & 0x7FFF == value & 0x7FFF,
        0u16 & 0x8000 == 0,
{
}

pub struct AgcRam {
    pub banks: [[u16; RAM_BANK_SIZE]; RAM_NUM_BANKS],
}

impl View for AgcRam {
    type V = Seq<Seq<u16>>;

    open spec fn view(&self) -> Seq<Seq<u16>> {
        Seq::new(8, |b: int| self.banks[b]@)
    }
}

impl AgcRam {
    /// A memory of zeros.
    pub fn new() -> (r: AgcRam)
        ensures
            r@ == ram_zeroed(),
    {
        let r = AgcRam { banks: [[0; RAM_BANK_SIZE]; RAM_NUM_BANKS] };
        assert(r@ =~~= ram_zeroed());
        r
    }

    /// Sets every cell to 0.
    pub fn reset(&mut self)
        ensures
            final(self)@ == ram_zeroed(),
    {
        self.banks = [[0; RAM_BANK_SIZE]; RAM_NUM_BANKS];
        assert(self@ =~~= ram_zeroed());
    }

    /// Reads the cell `bank_offset` of bank `bank_idx`.
    pub fn read(&self, bank_idx: usize, bank_offset: usize) -> (r: u16)
        ensures
            r == ram_read(self@, bank_idx as int, bank_offset as int),
    {
        if bank_idx >= RAM_NUM_BANKS || bank_offset >= RAM_BANK_SIZE {
            0
        } else if bank_idx == 0x0 && (bank_offset == REG_A || bank_offset == REG_Q) {
            self.banks[bank_idx][bank_offset]
        } else {
            self.banks[bank_idx][bank_offset] & 0x7FFF
        }
    }

    /// Writes `value` to the cell `bank_offset` of bank `bank_idx`.
    pub fn write(&mut self, bank_idx: usize, bank_offset: usize, value: u16)
        ensures
            final(self)@ == ram_write(old(self)@, bank_idx as int, bank_offset as int, value),
            ram_sign_clean(old(self)@) ==> ram_sign_clean(final(self)@),
    {
        if bank_idx >= RAM_NUM_BANKS || bank_offset >= RAM_BANK_SIZE {
            return ;
        }
        if bank_idx == 0x0 && (bank_offset == REG_A || bank_offset == REG_Q) {
            self.banks[bank_idx][bank_offset] = value;
        } else {
            self.banks[bank_idx][bank_offset] = value & 0x7FFF;
            proof {
                lemma_low_15_bits(value);
            }
        }
        assert(self@ =~~= ram_write(old(self)@, bank_idx as int, bank_offset as int, value));
    }
}

/// A memory of zeros has bit 15 clear in every cell.
pub proof fn lemma_zeroed_ram_is_clean()
    ensures
        ram_shaped(ram_zeroed()),
        ram_sign_clean(ram_zeroed()),
{
    lemma_low_15_bits(0);
}

/// A write keeps bit 15 clear in every 15-bit cell.
pub proof fn lemma_write_keeps_clean(ram: Seq<Seq<u16>>, bank: int, offset: int, value: u16)
    requires
        ram_shaped(ram),
        ram_sign_clean(ram),
    ensures
        ram_sign_clean(ram_write(ram, bank, offset, value)),
{
    lemma_low_15_bits(value);
}

/// Number of bytes of a saved erasable memory: two for each cell.
pub const RAM_SAVE_BYTES: usize = 4096;

/// The low byte of a word.
pub open spec fn word_low(w: u16) -> u8 {
    (w & 0xFF) as u8
}

/// The high byte of a word.
pub open spec fn word_high(w: u16) -> u8 {
    (w >> 8) as u8
}

/// The word made of a low and a high byte.
pub open spec fn word_of(low: u8, high: u8) -> u16 {
    (low as u16) | ((high as u16) << 8)
}

/// The place in a saved memory of the low byte of the cell `(bank,
/// offset)`.
pub open spec fn save_place(bank: int, offset: int) -> int {
    2 * (bank * 256 + offset)
}

/// Whether `bytes` is the saved form of the memory `ram`: each cell in two
/// bytes, low byte first, bank after bank.
pub open spec fn ram_saved_as(ram: Seq<Seq<u16>>, bytes: Seq<u8>) -> bool {
    &&& bytes.len() == 4096
    &&& forall|b: int, o: int|
        ram_cell(b, o) ==> #[trigger] bytes[save_place(b, o)] == word_low(ram[b][o])
            && bytes[save_place(b, o) + 1] == word_high(ram[b][o])
}

/// Whether the memory `ram` is what the saved bytes `bytes` hold.
pub open spec fn ram_restored_from(ram: Seq<Seq<u16>>, bytes: Seq<u8>) -> bool {
    forall|b: int, o: int|
        ram_cell(b, o) ==> (#[trigger] ram[b][o]) == word_of(
            bytes[save_place(b, o)],
            bytes[save_place(b, o) + 1],
        )
}

/// A word is made of its two bytes.
pub proof fn lemma_word_bytes(w: u16)
    by (bit_vector)
    ensures
        word_of(word_low(w), word_high(w)) == w,
{
}

impl AgcRam {
    /// The memory in its saved form.
    pub fn saved_bytes(&self) -> (bytes: Vec<u8>)
        ensures
            ram_saved_as(self@, bytes@),
    {
        let mut bytes: Vec<u8> = Vec::new();
        let mut bank: usize = 0;
        while bank < RAM_NUM_BANKS
            invariant
                bank <= 8,
                bytes@.len() == 512 * bank,
                forall|b: int, o: int|
                    0 <= b < bank && 0 <= o < 256 ==> #[trigger] bytes@[save_place(b, o)]
                        == word_low(self.banks[b][o]) && bytes@[save_place(b, o) + 1]
                        == word_high(self.banks[b][o]),
            decreases 8 - bank,
        {
            let mut offset: usize = 0;
            while offset < RAM_BANK_SIZE
                invariant
                    bank < 8,
                    offset <= 256,
                    bytes@.len() == 512 * bank + 2 * offset,
                    forall|b: int, o: int|
                        0 <= b < bank && 0 <= o < 256 ==> #[trigger] bytes@[save_place(b, o)]
                            == word_low(self.banks[b][o]) && bytes@[save_place(b, o) + 1]
                            == word_high(self.banks[b][o]),
                    forall|o: int|
                        0 <= o < offset ==> #[trigger] bytes@[save_place(bank as int, o)]
                            == word_low(self.banks[bank as int][o]) && bytes@[save_place(
                            bank as int,
                            o,
                        ) + 1] == word_high(self.banks[bank as int][o]),
                decreases 256 - offset,
            {
                let w: u16 = self.banks[bank][offset];
                bytes.push((w & 0xFF) as u8);
                bytes.push((w >> 8) as u8);
                offset = offset + 1;
            }
            assert forall|b: int, o: int|
                0 <= b < bank + 1 && 0 <= o < 256 implies #[trigger] bytes@[save_place(b, o)]
                == word_low(self.banks[b][o]) && bytes@[save_place(b, o) + 1] == word_high(
                self.banks[b][o],
            ) by {
                if b == bank {
                    assert(bytes@[save_place(bank as int, o)] == word_low(
                        self.banks[bank as int][o],
                    ));
                }
            }
            bank = bank + 1;
        }
        bytes
    }

    /// Takes the memory from its saved form. Bytes that are too few to
    /// hold a memory change nothing; says whether the memory was taken.
    pub fn restore(&mut self, bytes: &[u8]) -> (taken: bool)
        ensures
            taken == (bytes@.len() >= 4096),
            !taken ==> final(self)@ == old(self)@,
            taken ==> ram_restored_from(final(self)@, bytes@),
    {
        if bytes.len() < RAM_SAVE_BYTES {
            return false;
        }
        let mut bank: usize = 0;
        while bank < RAM_NUM_BANKS
            invariant
                bank <= 8,
                bytes@.len() >= 4096,
                forall|b: int, o: int|
                    0 <= b < bank && 0 <= o < 256 ==> (#[trigger] self.banks[b][o]) == word_of(
                        bytes@[save_place(b, o)],
                        bytes@[save_place(b, o) + 1],
                    ),
            decreases 8 - bank,
        {
            let mut offset: usize = 0;
            while offset < RAM_BANK_SIZE
                invariant
                    bank < 8,
                    offset <= 256,
                    bytes@.len() >= 4096,
                    forall|b: int, o: int|
                        0 <= b < bank && 0 <= o < 256 ==> (#[trigger] self.banks[b][o])
                            == word_of(bytes@[save_place(b, o)], bytes@[save_place(b, o) + 1]),
                    forall|o: int|
                        0 <= o < offset ==> (#[trigger] self.banks[bank as int][o]) == word_of(
                            bytes@[save_place(bank as int, o)],
                            bytes@[save_place(bank as int, o) + 1],
                        ),
                decreases 256 - offset,
            {
                let place: usize = 2 * (bank * 256 + offset);
                self.banks[bank][offset] = (bytes[place] as u16) | ((bytes[place + 1] as u16)
                    << 8);
                offset = offset + 1;
            }
            assert forall|b: int, o: int| 0 <= b < bank + 1 && 0 <= o < 256 implies (
            #[trigger] self.banks[b][o]) == word_of(
                bytes@[save_place(b, o)],
                bytes@[save_place(b, o) + 1],
            ) by {
                if b == bank {
                    assert(self.banks[bank as int][o] == word_of(
                        bytes@[save_place(bank as int, o)],
                        bytes@[save_place(bank as int, o) + 1],
                    ));
                }
            }
            bank = bank + 1;
        }
        true
    }
}

/// A memory that is taken from the saved form of a memory is that memory.
pub proof fn lemma_restore_of_saved(ram: Seq<Seq<u16>>, bytes: Seq<u8>, back: Seq<Seq<u16>>)
    requires
        ram_shaped(ram),
        ram_shaped(back),
        ram_saved_as(ram, bytes),
        ram_restored_from(back, bytes),
    ensures
        back == ram,
{
    assert forall|b: int| 0 <= b < 8 implies back[b] == ram[b] by {
        assert forall|o: int| 0 <= o < 256 implies back[b][o] == ram[b][o] by {
            lemma_word_bytes(ram[b][o]);
            assert(bytes[save_place(b, o)] == word_low(ram[b][o]));
        }
        assert(back[b] =~= ram[b]);
    }
    assert(back =~= ram);
}

/// A read of a cell gives what was last written to it, cut to the cell's
/// width, and no other cell changes.
pub proof fn lemma_ram_read_after_write(
    ram: Seq<Seq<u16>>,
    bank: int,
    offset: int,
    value: u16,
    b: int,
    o: int,
)
    requires
        ram_shaped(ram),
        ram_cell(bank, offset),
    ensures
        ram_shaped(ram_write(ram, bank, offset, value)),
        ram_read(ram_write(ram, bank, offset, value), bank, offset) == if ram_wide_cell(
            bank,
            offset,
        ) {
            value
        } else {
            value & 0x7FFF
        },
        (b != bank || o != offset) ==> ram_read(ram_write(ram, bank, offset, value), b, o)
            == ram_read(ram, b, o),
{
    lemma_low_15_bits(value);
}

} // verus!
