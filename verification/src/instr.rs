//! Instruction words: the mnemonics, the decoded instruction and the fields
//! of its word.

use vstd::prelude::*;

pub mod arith;
pub mod cf;
pub mod intrpt;
pub mod io;
pub mod ldst;
pub mod logic;



verus! {

/// The operations of the machine.
#[derive(Debug, Clone, Copy, PartialEq, Eq, Structural)]
pub enum AgcMnem {
    AD,
    ADS,
    AUG,
    BZF,
    BZMF,
    CA,
    CS,
    CCS,
    DAS,
    DCA,
    DCS,
    DIM,
    DV,
    DXCH,
    EDRUPT,
    EXTEND,
    INCR,
    INDEX,
    INHINT,
    LXCH,
    MASK,
    MP,
    MSU,
    QXCH,
    RAND,
    READ,
    RELINT,
    RESUME,
    ROR,
    RXOR,
    SU,
    TC,
    TCF,
    TS,
    WAND,
    WOR,
    WRITE,
    XCH,
    INVALID,
}

/// A decoded instruction. `inst_data` is the 15-bit instruction word with
/// the EXTEND prefix in bit 15.
#[derive(Debug, Clone, Copy)]
pub struct AgcInst {
    pub pc: u16,
    pub mnem: AgcMnem,
    pub inst_data: u16,
    pub extrabits: Option<u8>,
    pub mct: u8,
}

impl AgcInst {
    /// The three opcode bits, bits 12 to 14 of the word.
    pub open spec fn opcode_bits(self) -> u8 {
        ((self.inst_data >> 12) & 0o7) as u8
    }

    /// The 12-bit address field of the word.
    pub open spec fn data_bits(self) -> u16 {
        self.inst_data & 0o7777
    }

    /// The 12-bit address field of the word, as an address.
    pub open spec fn kaddr(self) -> usize {
        (self.inst_data & 0o7777) as usize
    }

    /// The 10-bit erasable address field of the word, as an address.
    pub open spec fn kaddr_ram(self) -> usize {
        (self.inst_data & 0o1777) as usize
    }

    /// Whether the word carries the EXTEND prefix.
    pub open spec fn extended(self) -> bool {
        self.inst_data & 0o100000 == 0o100000
    }

    /// An instruction that stands for no operation of the machine.
    pub fn new() -> (i: AgcInst)
        ensures
            i.pc == 0,
            i.inst_data == 0,
            i.mnem == AgcMnem::INVALID,
            i.extrabits is None,
            i.mct == 1,
    {
        AgcInst { pc: 0o00000, inst_data: 0o00000, mnem: AgcMnem::INVALID, extrabits: None, mct: 1 }
    }

    pub fn get_opcode_bits(&self) -> (r: u8)
        ensures
            r == self.opcode_bits(),
    {
        ((self.inst_data >> 12) & 0o7) as u8
    }

    pub fn get_data_bits(&self) -> (r: u16)
        ensures
            r == self.data_bits(),
            r <= 0o7777,
    {
        proof {
            crate::bits::lemma_and_le_u16(self.inst_data, 0o7777);
        }
        self.inst_data & 0o7777
    }

    pub fn get_kaddr(&self) -> (r: usize)
        ensures
            r == self.kaddr(),
            r <= 0o7777,
    {
        proof {
            crate::bits::lemma_and_le_u16(self.inst_data, 0o7777);
        }
        (self.inst_data & 0o7777) as usize
    }

    pub fn get_kaddr_ram(&self) -> (r: usize)
        ensures
            r == self.kaddr_ram(),
            r <= 0o1777,
    {
        proof {
            crate::bits::lemma_and_le_u16(self.inst_data, 0o1777);
        }
        (self.inst_data & 0o1777) as usize
    }

    pub fn is_extended(&self) -> (r: bool)
        ensures
            r == self.extended(),
    {
        self.inst_data & 0o100000 == 0o100000
    }
}

} // verus!
