use ragc::consts::cpu::REG_A;
use ragc::consts::ROM_BANK_NUM_WORDS;
use ragc::consts::ROM_NUM_BANKS;
use ragc::cpu::AgcCpu;
use ragc::cpu::AgcOverflow;
use ragc::cpu::overflow_of;
use ragc::disasm::decode;
use ragc::instr::ldst::AgcLoadStore;
use ragc::mem::AgcMemoryMap;
use ragc::mem::io::AgcIoSpace;
use ragc::mem::periph::engines::LM_ASCEND_ENGINE;
use ragc::mem::periph::engines::LM_DECEND_ENGINE;
use ragc::mem::periph::engines::LM_UNKNOWN_ENGINE;
use ragc::mem::periph::engines::LmDecendEngine;
use ragc::mem::periph::engines::LmEngines;
use ragc::mem::periph::NoPeriph;
use ragc::mem::periph::Peripheral;
use ragc::mem::ram::AgcRam;
use ragc::mem::rom::AgcRom;
use ragc::mem::rom::load_rope;
use ragc::mem::special::AgcSpecialRegs;

fn init_agc() -> AgcCpu<NoPeriph, NoPeriph> {
    let mut mm = AgcMemoryMap::new_blank();
    mm.enable_rom_write();
    AgcCpu::new(mm)
}

#[test]
fn cs_twice_leaves_the_complement() {
    let mut cpu = init_agc();
    cpu.write(0o200, 0o12345);
    cpu.write(REG_A, 0o54321);
    let cs = decode(0, 0o40000 + 0o200);
    assert_eq!(cpu.cs(&cs), 2);
    assert_eq!(cpu.read(REG_A), !0o12345u16);
    cpu.cs(&cs);
    assert_eq!(cpu.read(REG_A), !0o12345u16);
    assert_eq!(cpu.read(0o200), 0o12345);

    cpu.write(REG_A, 0o54321);
    let cs_a = decode(0, 0o40000);
    cpu.cs(&cs_a);
    assert_eq!(cpu.read(REG_A), !0o54321u16);
    cpu.cs(&cs_a);
    assert_eq!(cpu.read(REG_A), 0o54321);
}

#[test]
fn a_overflows_where_its_top_bits_differ() {
    let mut cpu = init_agc();
    for (a, over) in [(0x0000u16, false), (0x3FFF, false), (0x4000, true), (0x7FFF, true), (0x8000, true), (0xBFFF, true), (0xC000, false), (0xFFFF, false)] {
        cpu.write(REG_A, a);
        assert_eq!(cpu.is_overflow(), over);
        assert_eq!(cpu.rupt_disabled(), true);
        cpu.gint = true;
        assert_eq!(cpu.rupt_disabled(), over);
        cpu.gint = false;
    }
    for v in [0u16, 0o37777, 0o40000, 0o77777] {
        cpu.write_s15(REG_A, v);
        assert!(!cpu.is_overflow());
    }
}

#[test]
fn overflow_of_words() {
    assert_eq!(overflow_of(0x0000), AgcOverflow::Neither);
    assert_eq!(overflow_of(0x3FFF), AgcOverflow::Neither);
    assert_eq!(overflow_of(0x4000), AgcOverflow::Positive);
    assert_eq!(overflow_of(0x7FFF), AgcOverflow::Positive);
    assert_eq!(overflow_of(0x8000), AgcOverflow::Negative);
    assert_eq!(overflow_of(0xBFFF), AgcOverflow::Negative);
    assert_eq!(overflow_of(0xC000), AgcOverflow::Neither);
    assert_eq!(overflow_of(0xFFFF), AgcOverflow::Neither);
}

#[test]
fn ram_is_saved_and_restored() {
    let mut ram = AgcRam::new();
    for b in 0..8 {
        for o in 0..256 {
            ram.write(b, o, (b * 256 + o) as u16 * 7 + 1);
        }
    }
    ram.write(0, 0, 0xFEDC);
    let bytes = ram.saved_bytes();
    assert_eq!(bytes.len(), 4096);
    assert_eq!(bytes[0], 0xDC);
    assert_eq!(bytes[1], 0xFE);
    assert_eq!(bytes[2 * 257], ((257 * 7 + 1) & 0xFF) as u8);
    assert_eq!(bytes[2 * 257 + 1], ((257 * 7 + 1) >> 8) as u8);
    let mut back = AgcRam::new();
    assert!(back.restore(&bytes));
    assert_eq!(back.banks, ram.banks);
    let mut short = AgcRam::new();
    short.write(1, 1, 5);
    assert!(!short.restore(&bytes[..4095]));
    assert_eq!(short.read(1, 1), 5);
}

#[test]
fn rope_is_read_from_an_image() {
    let mut image = vec![0u8; 2048 * 3 + 100];
    image[0] = 0x12;
    image[1] = 0x34;
    image[2046] = 0xAB;
    image[2047] = 0xCD;
    image[2048] = 0x00;
    image[2049] = 0x02;
    image[2048 * 3 + 10] = 0xFF;
    let rope = load_rope(&image);
    assert_eq!(rope[0][0], 0x1234);
    assert_eq!(rope[0][1023], 0xABCD);
    assert_eq!(rope[1][0], 0x0002);
    assert_eq!(rope[3][5], 0);
    assert_eq!(rope[35][1023], 0);
    let rom = AgcRom::new(&rope);
    assert_eq!(rom.read(2, 0), 0x1234 >> 1);
    assert_eq!(rom.read(2, 1023), (0xABCD >> 1) & 0x7FFF);
    assert_eq!(rom.read(3, 0), 1);
    assert_eq!(rom.read(36, 0), 0);
    assert_eq!(rom.read(0, 1024), 0);
    let full = vec![0xFFu8; 2048 * 40];
    let rope = load_rope(&full);
    assert_eq!(rope[35][1023], 0xFFFF);
    assert_eq!(load_rope(&[])[0][0], 0);
}

#[test]
fn rom_words_and_banks() {
    let mut rom = AgcRom::blank();
    for bank in 0..ROM_NUM_BANKS {
        for offset in [0usize, 1, 1023] {
            assert_eq!(rom.read(bank, offset), 0);
            rom.write(bank, offset, (bank as u16 + 1) | 0x8000);
        }
    }
    for bank in 0..ROM_NUM_BANKS {
        assert_eq!(rom.read(bank, 1023), bank as u16 + 1);
    }
    assert_eq!(rom.program[2][0], (0 + 1) << 1);
    assert_eq!(rom.program[3][0], (1 + 1) << 1);
    assert_eq!(rom.program[0][0], (2 + 1) << 1);
    assert_eq!(rom.program[1][0], (3 + 1) << 1);
    assert_eq!(rom.program[4][0], (4 + 1) << 1);
    rom.write(36, 0, 5);
    rom.write(0, ROM_BANK_NUM_WORDS, 5);
    assert_eq!(rom.read(36, 0), 0);
}

#[test]
fn special_registers() {
    let mut special = AgcSpecialRegs::new();
    special.cdu = (1, 2, 3);
    special.opt = (4, 5);
    special.pipa = (6, 7, 8);
    assert_eq!(special.read(0, 0o32), 1);
    assert_eq!(special.read(0, 0o33), 2);
    assert_eq!(special.read(0, 0o34), 3);
    assert_eq!(special.read(0, 0o36), 4);
    assert_eq!(special.read(0, 0o35), 5);
    assert_eq!(special.read(0, 0o37), 6);
    assert_eq!(special.read(0, 0o40), 7);
    assert_eq!(special.read(0, 0o41), 8);
    assert_eq!(special.read(1, 0o32), 0);
    special.write(0, 0o32, 0o777);
    special.write(0, 0o57, 0o777);
    special.write(0, 0o45, 0o177777);
    assert_eq!(special.read(0, 0o32), 1);
    assert_eq!(special.read(0, 0o57), 0);
    assert_eq!(special.read(0, 0o50), 0);
    assert_eq!(special.read(0, 0o45), 0o77777);
    special.reset();
    assert_eq!(special.read(0, 0o45), 0o77777);
}

#[test]
fn engines() {
    let mut descent = LmDecendEngine::new();
    assert!(!descent.is_enabled());
    descent.set_enabled(true);
    assert!(descent.is_enabled());

    let mut engines = LmEngines::new();
    assert_eq!(engines.get_active_engine(), LM_DECEND_ENGINE);
    assert!(!engines._get_engine_enable());
    engines.set_engine_enable(true);
    assert!(engines._get_engine_enable());
    engines.set_active_engine(LM_UNKNOWN_ENGINE);
    assert_eq!(engines.get_active_engine(), LM_DECEND_ENGINE);
    engines.set_active_engine(LM_ASCEND_ENGINE);
    assert_eq!(engines.get_active_engine(), LM_ASCEND_ENGINE);
    assert!(!engines._get_engine_enable());
    engines.set_engine_enable(false);
    engines.set_active_engine(LM_DECEND_ENGINE);
    assert!(engines._get_engine_enable());
    assert_eq!(engines.is_interrupt(), 0);
}

#[test]
fn channels_alone() {
    let mut io = AgcIoSpace::blank();
    assert_eq!(io.read(0o30), 0o37777);
    io.lm_engines.set_active_engine(LM_ASCEND_ENGINE);
    assert_eq!(io.read(0o30), 0o37775);
    io.write(0o11, 0o77777);
    assert_eq!(io.read(0o11), 0o77777);
    assert_eq!(io._handle_channel11_read(), 0x2000 | 0x037F);
    io.lm_engines.set_active_engine(LM_DECEND_ENGINE);
    io.lm_engines.set_engine_enable(true);
    assert_eq!(io._handle_channel11_read(), 0x1000 | 0x037F);
    io.write(0o13, 0xFFFF);
    assert_eq!(io.read(0o13), 0x47CF);
    io.write(0o7, 0xFFFF);
    assert_eq!(io.read(0o7), 0o160);
    io.write(0o377, 0o12345);
    assert_eq!(io.read(0o377), 0o12345);
    io.write(0o400, 0o12345);
    assert_eq!(io.read(0o400), 0);
    assert_eq!(io.read(0o3), 0);
    assert_eq!(io.read(0o4), 0);
    assert_eq!(io.read(0o16), 0);
    assert_eq!(io.channel_value(0o15, 0o31), 0);
    assert_eq!(io.channel_value(0o163, 0o31), 0o77777);
    assert_eq!(io.check_interrupt(), 0);
}
