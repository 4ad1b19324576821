//! The instruction decoder: from an instruction word, with the EXTEND prefix
//! in bit 15, to the operation it names.

use crate::instr::AgcInst;
use crate::instr::AgcMnem;
use vstd::prelude::*;

verus! {

/// The two-bit quarter code, bits 10 and 11 of the word.
pub open spec fn spec_quarter_code(inst_data: u16) -> u8 {
    ((inst_data & 0x0C00) >> 10) as u8
}

/// The three-bit peripheral code, bits 9 to 11 of the word.
pub open spec fn spec_peripheral_code(inst_data: u16) -> u8 {
    ((inst_data & 0x0E00) >> 9) as u8
}

/// The operation that an extended word names.
pub open spec fn spec_mnem_extended(inst_data: u16) -> AgcMnem {
    let op = ((inst_data >> 12) & 0o7) as u8;
    let qc = spec_quarter_code(inst_data);
    let pc = spec_peripheral_code(inst_data);
    if op == 0 {
        if pc == 0 {
            AgcMnem::READ
        } else if pc == 1 {
            AgcMnem::WRITE
        } else if pc == 2 {
            AgcMnem::RAND
        } else if pc == 3 {
            AgcMnem::WAND
        } else if pc == 4 {
            AgcMnem::ROR
        } else if pc == 5 {
            AgcMnem::WOR
        } else if pc == 6 {
            AgcMnem::RXOR
        } else {
            AgcMnem::EDRUPT
        }
    } else if op == 1 {
        if qc == 0 {
            AgcMnem::DV
        } else {
            AgcMnem::BZF
        }
    } else if op == 2 {
        if qc == 0 {
            AgcMnem::MSU
        } else if qc == 1 {
            AgcMnem::QXCH
        } else if qc == 2 {
            AgcMnem::AUG
        } else {
            AgcMnem::DIM
        }
    } else if op == 3 {
        AgcMnem::DCA
    } else if op == 4 {
        AgcMnem::DCS
    } else if op == 5 {
        AgcMnem::INDEX
    } else if op == 6 {
        if qc == 0 {
            AgcMnem::SU
        } else {
            AgcMnem::BZMF
        }
    } else {
        AgcMnem::MP
    }
}

/// The operation that a basic word names.
pub open spec fn spec_mnem_simple(inst_data: u16) -> AgcMnem {
    let op = ((inst_data >> 12) & 0o7) as u8;
    let qc = spec_quarter_code(inst_data);
    if op == 0 {
        if inst_data & 0xFFF == 3 {
            AgcMnem::RELINT
        } else if inst_data & 0xFFF == 4 {
            AgcMnem::INHINT
        } else if inst_data & 0xFFF == 6 {
            AgcMnem::EXTEND
        } else {
            AgcMnem::TC
        }
    } else if op == 1 {
        if qc == 0 {
            AgcMnem::CCS
        } else {
            AgcMnem::TCF
        }
    } else if op == 2 {
        if qc == 0 {
            AgcMnem::DAS
        } else if qc == 1 {
            AgcMnem::LXCH
        } else if qc == 2 {
            AgcMnem::INCR
        } else {
            AgcMnem::ADS
        }
    } else if op == 3 {
        AgcMnem::CA
    } else if op == 4 {
        AgcMnem::CS
    } else if op == 5 {
        if qc == 0 {
            if inst_data & 0o07777 == 0o00017 {
                AgcMnem::RESUME
            } else {
                AgcMnem::INDEX
            }
        } else if qc == 1 {
            AgcMnem::DXCH
        } else if qc == 2 {
            AgcMnem::TS
        } else {
            AgcMnem::XCH
        }
    } else if op == 6 {
        AgcMnem::AD
    } else {
        AgcMnem::MASK
    }
}

/// The sub-field that selects among the operations of one opcode: the
/// peripheral code for extended opcode 0, the quarter code for the opcodes
/// that are split in four, nothing for the others.
pub open spec fn spec_extrabits(inst_data: u16) -> Option<u8> {
    let op = ((inst_data >> 12) & 0o7) as u8;
    if inst_data & 0o100000 == 0o100000 {
        if op == 0 {
            Some(spec_peripheral_code(inst_data))
        } else if op == 1 || op == 2 || op == 6 {
            Some(spec_quarter_code(inst_data))
        } else {
            None
        }
    } else {
        if op == 1 || op == 2 || op == 5 {
            Some(spec_quarter_code(inst_data))
        } else {
            None
        }
    }
}

/// The base cost of an operation in memory cycles, as the decoder reports it.
pub open spec fn spec_base_mct(mnem: AgcMnem) -> u8 {
    match mnem {
        AgcMnem::WRITE | AgcMnem::CA | AgcMnem::CS | AgcMnem::TS | AgcMnem::AD => 2,
        _ => 1,
    }
}

/// The operation that a word names.
pub open spec fn spec_mnem(inst_data: u16) -> AgcMnem {
    if inst_data & 0o100000 == 0o100000 {
        spec_mnem_extended(inst_data)
    } else {
        spec_mnem_simple(inst_data)
    }
}

/// The decoded form of the word `inst_data` found at `pc`.
pub open spec fn spec_disasm(pc: u16, inst_data: u16) -> AgcInst {
    AgcInst {
        pc: pc,
        mnem: spec_mnem(inst_data),
        inst_data: inst_data,
        extrabits: spec_extrabits(inst_data),
        mct: spec_base_mct(spec_mnem(inst_data)),
    }
}

/// Decodes a word that carries the EXTEND prefix.
fn disasm_extended(i: AgcInst) -> (r: AgcInst)
    requires
        i.extended(),
    ensures
        r.pc == i.pc,
        r.inst_data == i.inst_data,
        r.mnem == spec_mnem_extended(i.inst_data),
        r.extrabits == spec_extrabits(i.inst_data),
        r.mct == if spec_mnem_extended(i.inst_data) == AgcMnem::WRITE {
            2u8
        } else {
            i.mct
        },
{
    let mut i = i;
    let opbits: u8 = i.get_opcode_bits();
    if opbits == 0 {
        let exb: u8 = ((i.inst_data & 0x0E00) >> 9) as u8;
        i.extrabits = Some(exb);
        if exb == 0 {
            i.mnem = AgcMnem::READ;
        } else if exb == 1 {
            i.mnem = AgcMnem::WRITE;
            i.mct = 2;
        } else if exb == 2 {
            i.mnem = AgcMnem::RAND;
        } else if exb == 3 {
            i.mnem = AgcMnem::WAND;
        } else if exb == 4 {
            i.mnem = AgcMnem::ROR;
        } else if exb == 5 {
            i.mnem = AgcMnem::WOR;
        } else if exb == 6 {
            i.mnem = AgcMnem::RXOR;
        } else {
            i.mnem = AgcMnem::EDRUPT;
        }
    } else if opbits == 1 {
        let exb: u8 = ((i.inst_data & 0x0C00) >> 10) as u8;
        i.extrabits = Some(exb);
        if exb == 0 {
            i.mnem = AgcMnem::DV;
        } else {
            i.mnem = AgcMnem::BZF;
        }
    } else if opbits == 2 {
        let exb: u8 = ((i.inst_data & 0x0C00) >> 10) as u8;
        i.extrabits = Some(exb);
        if exb == 0 {
            i.mnem = AgcMnem::MSU;
        } else if exb == 1 {
            i.mnem = AgcMnem::QXCH;
        } else if exb == 2 {
            i.mnem = AgcMnem::AUG;
        } else {
            i.mnem = AgcMnem::DIM;
        }
    } else if opbits == 3 {
        i.extrabits = None;
        i.mnem = AgcMnem::DCA;
    } else if opbits == 4 {
        i.extrabits = None;
        i.mnem = AgcMnem::DCS;
    } else if opbits == 5 {
        i.extrabits = None;
        i.mnem = AgcMnem::INDEX;
    } else if opbits == 6 {
        let exb: u8 = ((i.inst_data & 0x0C00) >> 10) as u8;
        i.extrabits = Some(exb);
        if exb == 0 {
            i.mnem = AgcMnem::SU;
        } else {
            i.mnem = AgcMnem::BZMF;
        }
    } else {
        i.extrabits = None;
        i.mnem = AgcMnem::MP;
    }
    i
}

/// Decodes a word without the EXTEND prefix.
fn disasm_simple(i: AgcInst) -> (r: AgcInst)
    requires
        !i.extended(),
    ensures
        r.pc == i.pc,
        r.inst_data == i.inst_data,
        r.mnem == spec_mnem_simple(i.inst_data),
        r.extrabits == spec_extrabits(i.inst_data),
        r.mct == if spec_base_mct(spec_mnem_simple(i.inst_data)) == 2 {
            2u8
        } else {
            i.mct
        },
{
    let mut i = i;
    let opbits: u8 = i.get_opcode_bits();
    if opbits == 0 {
        let k: u16 = i.inst_data & 0xFFF;
        i.extrabits = None;
        i.mnem = if k == 3 {
            AgcMnem::RELINT
        } else if k == 4 {
            AgcMnem::INHINT
        } else if k == 6 {
            AgcMnem::EXTEND
        } else {
            AgcMnem::TC
        };
    } else if opbits == 1 {
        let exb: u8 = ((i.inst_data & 0x0C00) >> 10) as u8;
        i.extrabits = Some(exb);
        if exb == 0 {
            i.mnem = AgcMnem::CCS;
        } else {
            i.mnem = AgcMnem::TCF;
        }
    } else if opbits == 2 {
        let exb: u8 = ((i.inst_data & 0x0C00) >> 10) as u8;
        i.extrabits = Some(exb);
        if exb == 0 {
            i.mnem = AgcMnem::DAS;
        } else if exb == 1 {
            i.mnem = AgcMnem::LXCH;
        } else if exb == 2 {
            i.mnem = AgcMnem::INCR;
        } else {
            i.mnem = AgcMnem::ADS;
        }
    } else if opbits == 3 {
        i.extrabits = None;
        i.mnem = AgcMnem::CA;
        i.mct = 2;
    } else if opbits == 4 {
        i.extrabits = None;
        i.mnem = AgcMnem::CS;
        i.mct = 2;
    } else if opbits == 5 {
        let exb: u8 = ((i.inst_data & 0x0C00) >> 10) as u8;
        i.extrabits = Some(exb);
        if exb == 0 {
            if i.inst_data & 0o07777 == 0o00017 {
                i.mnem = AgcMnem::RESUME;
            } else {
                i.mnem = AgcMnem::INDEX;
            }
        } else if exb == 1 {
            i.mnem = AgcMnem::DXCH;
        } else if exb == 2 {
            i.mnem = AgcMnem::TS;
            i.mct = 2;
        } else {
            i.mnem = AgcMnem::XCH;
        }
    } else if opbits == 6 {
        i.extrabits = None;
        i.mnem = AgcMnem::AD;
        i.mct = 2;
    } else {
        i.extrabits = None;
        i.mnem = AgcMnem::MASK;
    }
    i
}

/// Decodes the word `inst_data` found at `pc`.
pub fn decode(pc: u16, inst_data: u16) -> (r: AgcInst)
    ensures
        r == spec_disasm(pc, inst_data),
{
    let i = AgcInst {
        pc: pc,
        inst_data: inst_data,
        mnem: AgcMnem::INVALID,
        extrabits: None,
        mct: 1,
    };
    if i.is_extended() {
        disasm_extended(i)
    } else {
        disasm_simple(i)
    }
}

/// Decodes the word `inst_data` found at `pc`. Every word names an
/// operation, so the result is always `Ok`.
pub fn disasm(pc: u16, inst_data: u16) -> (r: Result<AgcInst, &'static str>)
    ensures
        r == Ok::<AgcInst, &'static str>(spec_disasm(pc, inst_data)),
{
    Ok(decode(pc, inst_data))
}

} // verus!
