use ragc::consts::cpu::REG_A;
use ragc::consts::cpu::REG_BB;
use ragc::consts::cpu::REG_EB;
use ragc::consts::cpu::REG_FB;
use ragc::consts::cpu::REG_IR;
use ragc::consts::cpu::REG_L;
use ragc::consts::cpu::REG_PC_SHADOW;
use ragc::consts::cpu::REG_Q;
use ragc::consts::cpu::REG_Z;
use ragc::consts::cpu::RUPT_DOWNRUPT;
use ragc::consts::cpu::RUPT_KEY1;
use ragc::consts::cpu::RUPT_TIME3;
use ragc::consts::cpu::RUPT_TIME4;
use ragc::consts::cpu::TCMONITOR_COUNT;
use ragc::consts::ROM_BANK_NUM_WORDS;
use ragc::consts::ROM_NUM_BANKS;
use ragc::cpu::AgcCpu;
use ragc::cpu::AgcUnprogSeq;
use ragc::cpu::rupt::lowest_interrupt;
use ragc::disasm::disasm;
use ragc::instr::intrpt::AgcInterrupt;
use ragc::mem::AgcMemoryMap;
use ragc::mem::periph::AgcIoPeriph;
use ragc::mem::periph::NoPeriph;
use ragc::mem::rom::rope_word_from_bytes;

fn init_agc() -> AgcCpu<NoPeriph, NoPeriph> {
    let mut mm = AgcMemoryMap::new_blank();
    mm.enable_rom_write();
    AgcCpu::new(mm)
}

struct Probe {
    answer: u16,
    rupt: u16,
    written: Vec<(usize, u16)>,
}

impl Probe {
    fn new(answer: u16, rupt: u16) -> Probe {
        Probe { answer, rupt, written: Vec::new() }
    }
}

impl AgcIoPeriph for Probe {
    fn read(&self, _channel_idx: usize) -> u16 {
        self.answer
    }

    fn write(&mut self, channel_idx: usize, value: u16) {
        self.written.push((channel_idx, value));
    }

    fn is_interrupt(&mut self) -> u16 {
        let r = self.rupt;
        self.rupt = 0;
        r
    }
}

fn rope_with(words: &[(usize, usize, u16)]) -> Box<[[u16; ROM_BANK_NUM_WORDS]; ROM_NUM_BANKS]> {
    let mut rope = Box::new([[0u16; ROM_BANK_NUM_WORDS]; ROM_NUM_BANKS]);
    for (bank, offset, word) in words {
        rope[*bank][*offset] = word << 1;
    }
    rope
}

#[test]
fn boot_from_rope() {
    let rope = rope_with(&[(0, 0, 0o10000 + 0x801), (0, 1, 0o10000 + 0x801)]);
    let mm = AgcMemoryMap::new(&rope, Probe::new(0, 0), Probe::new(0, 0));
    let mut cpu = AgcCpu::new(mm);
    assert_eq!(cpu.read(REG_Z), 0x800);
    assert_eq!(cpu.ir, 0o10000 + 0x801);
    assert_eq!(cpu.gint, false);
    assert_eq!(cpu.is_irupt, false);
    assert_eq!(cpu.rupt, 1 << RUPT_DOWNRUPT);
    assert_eq!(cpu.step(), 1);
    assert_eq!(cpu.read(REG_Z), 0x801);
    for _i in 0..9 {
        cpu.step();
    }
    assert_eq!(cpu.read(REG_Z), 0x801);
    assert_eq!(cpu.read(REG_Q), 0);
    assert_eq!(cpu.gint, false);
    assert_eq!(cpu.is_irupt, false);
}

#[test]
fn rope_banks_and_words() {
    assert_eq!(rope_word_from_bytes(0x12, 0x34), 0x1234);
    let rope = rope_with(&[(0, 5, 0o12345), (1, 6, 0o23456), (2, 7, 0o34567), (3, 8, 0o45670), (4, 9, 0o56701), (35, 10, 0o67012)]);
    let mm = AgcMemoryMap::new(&rope, Probe::new(0, 0), Probe::new(0, 0));
    let mut cpu = AgcCpu::new(mm);
    assert_eq!(cpu.read(0o4000 + 5), 0o12345);
    assert_eq!(cpu.read(0o6000 + 6), 0o23456);
    cpu.write(REG_FB, 0 << 10);
    assert_eq!(cpu.read(0o2000 + 7), 0o34567);
    cpu.write(REG_FB, 1 << 10);
    assert_eq!(cpu.read(0o2000 + 8), 0o45670);
    cpu.write(REG_FB, 4 << 10);
    assert_eq!(cpu.read(0o2000 + 9), 0o56701);
    cpu.write(REG_FB, 0o33 << 10);
    assert_eq!(cpu.read(0o2000 + 10), 0);
    cpu.write_io(0o7, 0o100);
    assert_eq!(cpu.read_io(0o7), 0o100);
    assert_eq!(cpu.read(0o2000 + 10), 0o67012);
    cpu.write(REG_FB, 0o34 << 10);
    assert_eq!(cpu.read(0o2000 + 10), 0);
    cpu.write(0o4000 + 5, 0o11111);
    assert_eq!(cpu.read(0o4000 + 5), 0o12345);
    assert_eq!(cpu.read(0o10000), 0);
}

#[test]
fn erasable_window_follows_eb() {
    let mut cpu = init_agc();
    cpu.write(0o1000 + 3, 0o11111);
    cpu.write(REG_EB, 2 << 8);
    assert_eq!(cpu.read(0o1400 + 3), 0o11111);
    cpu.write(0o1400 + 4, 0o22222);
    assert_eq!(cpu.read(0o1000 + 4), 0o22222);
    cpu.write(REG_EB, 5 << 8);
    assert_eq!(cpu.read(0o1400 + 3), 0);
    cpu.write(0o1400 + 3, 0xFFFF);
    assert_eq!(cpu.read(0o1400 + 3), 0o77777);
    assert_eq!(cpu.mem.ram.banks[5][3], 0o77777);
    cpu.write(REG_BB, 0o76007);
    assert_eq!(cpu.read(REG_BB), (cpu.read(REG_FB) & 0x7C00) | ((cpu.read(REG_EB) >> 8) & 7));
    cpu.mem.reset();
    assert_eq!(cpu.read(0o1000 + 3), 0);
}

#[test]
fn edit_registers_through_the_map() {
    let mut cpu = init_agc();
    cpu.write(0o21, 0o7777);
    assert_eq!(cpu.read(0o21), 0o3777);
    cpu.write(0x800, 0o30000 + 0o21);
    cpu.reset();
    cpu.step();
    assert_eq!(cpu.read(REG_A), 0o3777);
    assert_eq!(cpu.read(0o21), 0o1777);
    cpu.write(0o20, 0o00001);
    assert_eq!(cpu.read(0o20), 0o40000);
    cpu.write(0o22, 0o40001);
    assert_eq!(cpu.read(0o22), 0o00003);
    cpu.write(0o23, 0o07777);
    assert_eq!(cpu.read(0o23), 0o00037);
    cpu.write(0o45, 0xFFFF);
    assert_eq!(cpu.read(0o45), 0o77777);
    cpu.write(0o32, 0o12345);
    assert_eq!(cpu.read(0o32), 0);
}

#[test]
fn ts_overflow_skips_and_stores() {
    let mut cpu = init_agc();
    cpu.write(0x800, 0o54000 + 0o100);
    cpu.reset();
    cpu.write(REG_A, 0x4000);
    assert_eq!(cpu.step(), 2);
    assert_eq!(cpu.read(REG_A), 0x0001);
    assert_eq!(cpu.read(0o100), 0x4000);
    assert_eq!(cpu.read(REG_Z), 0x802);

    cpu.reset();
    cpu.write(REG_A, 0x8005);
    cpu.step();
    assert_eq!(cpu.read(REG_A), 0xFFFE);
    assert_eq!(cpu.read(0o100), 0x0005);
    assert_eq!(cpu.read(REG_Z), 0x802);

    cpu.reset();
    cpu.write(REG_A, 0x1234);
    cpu.step();
    assert_eq!(cpu.read(REG_A), 0x1234);
    assert_eq!(cpu.read(0o100), 0x1234);
    assert_eq!(cpu.read(REG_Z), 0x801);
}

#[test]
fn incr_wraps_to_plus_zero() {
    let mut cpu = init_agc();
    cpu.write(0x800, 0o24000 + 0o200);
    cpu.reset();
    cpu.write(0o200, 0o37777);
    cpu.step();
    assert_eq!(cpu.read(0o200), 0o00000);
}

#[test]
fn mp_zero_by_negative_is_minus_zero() {
    let mut cpu = init_agc();
    cpu.write(0x800, 0o00006);
    cpu.write(0x801, 0o70000 + 0o200);
    cpu.reset();
    cpu.write_s15(REG_A, 0o00000);
    cpu.write_s15(0o200, 0o77776);
    assert_eq!(cpu.step(), 1);
    assert_eq!(cpu.step(), 3);
    assert_eq!(cpu.read_s15(REG_A), 0o77777);
    assert_eq!(cpu.read(REG_A), 0o177777);
    assert_eq!(cpu.read(REG_L), 0o77777);
}

#[test]
fn ads_accumulates() {
    let mut cpu = init_agc();
    cpu.write(0x800, 0o26000 + 0o200);
    cpu.reset();
    cpu.write(REG_A, 0x3FFF);
    cpu.write(0o200, 0x0001);
    cpu.step();
    assert_eq!(cpu.read(REG_A), 0x4000);
    assert_eq!(cpu.read(0o200), 0x0000);
    assert_eq!(cpu.read(REG_Z), 0x801);
}

#[test]
fn ccs_goes_four_ways() {
    let cases = [(0o00001u16, 0x801u16, 0u16), (0o00000, 0x802, 0), (0o77776, 0x803, 0), (0o77777, 0x804, 0), (0o00005, 0x801, 4), (0o77772, 0x803, 4)];
    for (k, z, a) in cases {
        let mut cpu = init_agc();
        cpu.write(0x800, 0o10000 + 0o200);
        for i in 0x801..0x807 {
            cpu.write(i, 0o10000 + 0x800 + i as u16);
        }
        cpu.reset();
        cpu.write(0o200, k);
        cpu.write(REG_A, 0o12345);
        assert_eq!(cpu.step(), 2);
        assert_eq!(cpu.read(REG_Z), z);
        assert_eq!(cpu.read(REG_A), a);
    }
}

#[test]
fn interrupt_is_taken_and_resumed() {
    let mut cpu = init_agc();
    cpu.write(0x800, 0o30000 + 0o200);
    cpu.write(0x801, 0o30000 + 0o201);
    cpu.write(0x80C, 0o50017);
    cpu.reset();
    cpu.write(0o200, 0o11111);
    cpu.write(0o201, 0o22222);
    cpu.gint = true;
    cpu.rupt = 1 << RUPT_TIME3;
    let z = cpu.read(REG_Z);
    cpu.step();
    assert_eq!(cpu.read(REG_Z), 0x80C);
    assert_eq!(cpu.read(REG_PC_SHADOW), z + 1);
    assert_eq!(cpu.read(REG_IR), 0o30000 + 0o200);
    assert_eq!(cpu.is_irupt, true);
    assert_eq!(cpu.gint, false);
    assert_eq!(cpu.rupt, 0);
    assert_eq!(cpu.unprog.len(), 1);

    assert_eq!(cpu.step(), 2);
    assert_eq!(cpu.read(REG_Z), z);
    assert_eq!(cpu.is_irupt, false);
    assert_eq!(cpu.gint, true);
    cpu.step();
    assert_eq!(cpu.read(REG_A), 0o11111);
    assert_eq!(cpu.read(REG_Z), 0x801);
}

#[test]
fn resume_restores_control() {
    let mut cpu = init_agc();
    cpu.write(REG_PC_SHADOW, 0x0A01);
    cpu.write(REG_IR, 0o30000 + 0o200);
    cpu.is_irupt = true;
    cpu.gint = false;
    cpu.idx_val = 5;
    let inst = disasm(0, 0o50017).unwrap();
    assert_eq!(cpu.resume(&inst), 2);
    assert_eq!(cpu.read(REG_Z), 0x0A00);
    assert_eq!(cpu.ir, 0o30000 + 0o200);
    assert_eq!(cpu.idx_val, 0);
    assert_eq!(cpu.is_irupt, false);
    assert_eq!(cpu.gint, true);
}

#[test]
fn lowest_interrupt_goes_first() {
    assert_eq!(lowest_interrupt(0), None);
    assert_eq!(lowest_interrupt(1 << RUPT_TIME3), Some(3));
    assert_eq!(lowest_interrupt((1 << RUPT_TIME3) | (1 << RUPT_TIME4)), Some(3));
    assert_eq!(lowest_interrupt((1 << RUPT_DOWNRUPT) | (1 << RUPT_KEY1)), Some(5));
    assert_eq!(lowest_interrupt(1 << 10), Some(10));
    assert_eq!(lowest_interrupt(1 << 11), None);
    assert_eq!(lowest_interrupt(0xFFFF), Some(0));

    let mut cpu = init_agc();
    for i in 0..0x40 {
        cpu.write(0x800 + i, 0o10000 + 0x801 + i as u16);
    }
    cpu.reset();
    cpu.gint = true;
    cpu.rupt = (1 << RUPT_TIME4) | (1 << RUPT_TIME3);
    cpu.step();
    assert_eq!(cpu.read(REG_Z), 0x80C);
    assert_eq!(cpu.rupt, 1 << RUPT_TIME4);
    cpu.is_irupt = false;
    cpu.gint = true;
    cpu.step();
    assert_eq!(cpu.read(REG_Z), 0x810);
}

#[test]
fn interrupts_wait_while_suppressed() {
    let mut cpu = init_agc();
    for i in 0..8 {
        cpu.write(0x800 + i, 0o10000 + 0x801 + i as u16);
    }
    cpu.reset();
    cpu.rupt = 1 << RUPT_TIME3;
    cpu.gint = false;
    cpu.step();
    assert_eq!(cpu.read(REG_Z), 0x801);
    cpu.gint = true;
    cpu.is_irupt = true;
    cpu.step();
    assert_eq!(cpu.read(REG_Z), 0x802);
    cpu.is_irupt = false;
    cpu.write(REG_A, 0x4000);
    cpu.step();
    assert_eq!(cpu.read(REG_Z), 0x803);
    cpu.write(REG_A, 0);
    cpu.ec_flag = true;
    cpu.step();
    assert_eq!(cpu.read(REG_Z), 0x804);
    cpu.step();
    assert_eq!(cpu.read(REG_Z), 0x80C);
}

#[test]
fn tc_trap_restarts() {
    let mut cpu = init_agc();
    cpu.write(0x800, 0o04000);
    cpu.reset();
    let mut tcs = 0;
    let mut steps = 0;
    loop {
        let cycles = cpu.step();
        steps += 1;
        if cpu.mem.io.io_mem[0o163] & 0o200 != 0 {
            assert_eq!(cycles, 2);
            break;
        }
        tcs += 1;
        assert_eq!(cycles, 1);
        assert_eq!(cpu.read(REG_Z), 0x800);
        assert_eq!(cpu.read(REG_Q), 0x801);
        assert!(steps < 5000);
    }
    assert_eq!(tcs, TCMONITOR_COUNT);
    assert_eq!(cpu.read(REG_Z), 0x800);
    assert_eq!(cpu.tc_count, 0);
    assert_eq!(cpu.non_tc_count, 0);
    assert_eq!(cpu.gint, false);
    assert_eq!(cpu.is_irupt, false);
}

#[test]
fn goj_clears_channels_and_restarts() {
    let mut cpu = init_agc();
    for ch in [0o5usize, 0o6, 0o10, 0o11, 0o12, 0o14, 0o34, 0o35] {
        cpu.write_io(ch, 0o12345);
        assert_eq!(cpu.mem.io.io_mem[ch], 0o12345);
    }
    cpu.write_io(0o13, 0o52345);
    assert!(cpu.mem.timers.get_time6_enable());
    cpu.write(REG_Z, 0x900);
    cpu.gint = true;
    cpu.is_irupt = true;
    assert_eq!(cpu.handle_goj(), 2);
    for ch in [0o5usize, 0o6, 0o10, 0o11, 0o12, 0o13, 0o14, 0o34, 0o35] {
        assert_eq!(cpu.mem.io.io_mem[ch], 0);
    }
    assert_eq!(cpu.mem.io.io_mem[0o33], 0o75777);
    assert!(!cpu.mem.timers.get_time6_enable());
    assert_eq!(cpu.read(REG_Z), 0x800);
    assert_eq!(cpu.gint, false);
    assert_eq!(cpu.is_irupt, false);
    assert_eq!(cpu.mem.io.io_mem[0o163] & 0o200, 0o200);

    cpu.set_unprog_seq(AgcUnprogSeq::PINC);
    cpu.set_unprog_seq(AgcUnprogSeq::GOJ);
    cpu.write(REG_Z, 0x900);
    assert_eq!(cpu.step(), 2);
    assert_eq!(cpu.read(REG_Z), 0x800);
    assert_eq!(cpu.unprog.len(), 0);
}

#[test]
fn rupt_lock_restarts_a_program_without_interrupts() {
    let mut cpu = init_agc();
    for i in 0..0x20 {
        cpu.write(0x800 + i, 0o30000 + 0o200);
    }
    cpu.write(0x820, 0o10000 + 0x800);
    cpu.reset();
    let mut mcts: u64 = 0;
    loop {
        mcts += cpu.step() as u64;
        if cpu.mem.io.io_mem[0o163] & 0o200 != 0 {
            break;
        }
        assert!(cpu.ruptlock_count <= 0);
        assert!(mcts < 26000);
    }
    assert!(mcts > 25000);
    assert_eq!(cpu.ruptlock_count, 0);
    assert_eq!(cpu.read(REG_Z), 0x800);
}

#[test]
fn night_watchman_restarts_a_silent_program() {
    let mut cpu = init_agc();
    for i in 0..0x20 {
        cpu.write(0x800 + i, 0o30000 + 0o200);
    }
    cpu.write(0x820, 0o10000 + 0x800);
    cpu.reset();
    cpu.nightwatch_cycles = 164100;
    cpu.step();
    assert_eq!(cpu.nightwatch_cycles, 0);
    assert_eq!(cpu.mem.io.io_mem[0o163] & 0o200, 0);
    assert_eq!(cpu.step(), 2);
    assert_eq!(cpu.mem.io.io_mem[0o163] & 0o200, 0o200);
    assert_eq!(cpu.read(REG_Z), 0x800);

    let mut cpu = init_agc();
    for i in 0..0x20 {
        cpu.write(0x800 + i, 0o30000 + 0o67);
    }
    cpu.write(0x820, 0o10000 + 0x800);
    cpu.reset();
    cpu.nightwatch_cycles = 164000;
    cpu.step();
    cpu.step();
    assert!(cpu.nightwatch > 0);
    for _i in 0..60 {
        cpu.step();
    }
    assert!(cpu.nightwatch_cycles < 200);
    assert_eq!(cpu.mem.io.io_mem[0o163] & 0o200, 0);
}

#[test]
fn index_and_extend_shape_the_next_instruction() {
    let mut cpu = init_agc();
    cpu.write(0x800, 0o50000 + 0o200);
    cpu.write(0x801, 0o30000 + 0o100);
    cpu.reset();
    cpu.write(0o200, 0o00005);
    cpu.write(0o105, 0o12321);
    assert_eq!(cpu.step(), 2);
    assert_eq!(cpu.idx_val, 5);
    assert_eq!(cpu.calculate_instr_data(), 0o30000 + 0o105);
    cpu.step();
    assert_eq!(cpu.read(REG_A), 0o12321);
    assert_eq!(cpu.idx_val, 0);

    cpu.write(0x800, 0o00006);
    cpu.write(0x801, 0o50000 + 0o200);
    cpu.write(0x802, 0o20000 + 0o100);
    cpu.reset();
    cpu.write(REG_A, 0o00010);
    cpu.write(0o105, 0o00003);
    assert_eq!(cpu.step(), 1);
    assert!(cpu.ec_flag);
    cpu.step();
    assert!(cpu.ec_flag);
    cpu.step();
    assert!(!cpu.ec_flag);
    assert_eq!(cpu.read(REG_A), 0o00005);
}

#[test]
fn peripherals_are_asked_and_told() {
    let rope = rope_with(&[(0, 0, 0o00006), (0, 1, 0o00015), (0, 2, 0o00006), (0, 3, 0o01010)]);
    let mm = AgcMemoryMap::new(&rope, Probe::new(0o54321, 0), Probe::new(0o00022, 1 << RUPT_KEY1));
    let mut cpu = AgcCpu::new(mm);
    cpu.step();
    cpu.step();
    assert_eq!(cpu.read(REG_A), 0o00022);
    assert_eq!(cpu.read_io(0o34), 0o54321);
    assert_eq!(cpu.read_io(0o32), 0o57777);
    assert_eq!(cpu.read_io(0o163), 0o00022);
    assert_eq!(cpu.read_io(0o30), 0o37777);
    assert_eq!(cpu.read_io(0o31), 0o77777);
    assert_eq!(cpu.read_io(0o33), 0o77777);
    assert_eq!(cpu.read_io(0o10), 0);
    assert_eq!(cpu.read_io(0o777), 0);
    cpu.write(REG_A, 0o12345);
    cpu.step();
    cpu.step();
    let dsky = cpu.mem.io.dsky.as_ref().unwrap();
    assert_eq!(dsky.written, vec![(0o10, 0o12345)]);
    let down = cpu.mem.io.downrupt.as_ref().unwrap();
    assert_eq!(down.written, vec![(0o10, 0o12345)]);

    assert_eq!(cpu.mem.check_interrupts(), 1 << RUPT_KEY1);
    assert_eq!(cpu.mem.check_interrupts(), 0);

    let rope = rope_with(&[(0, 0, 0o10000 + 0x801), (0, 1, 0o10000 + 0x802)]);
    let mm = AgcMemoryMap::new(&rope, Probe::new(0, 0), Probe::new(0, 1 << RUPT_KEY1));
    let mut cpu = AgcCpu::new(mm);
    cpu.rupt = 0;
    cpu.gint = true;
    cpu.step();
    assert_eq!(cpu.read(REG_Z), 0x800 + 4 * RUPT_KEY1 as u16);
    assert!(cpu.is_irupt);
}

#[test]
fn channels_of_the_machine() {
    let mut cpu = init_agc();
    cpu.write(REG_L, 0o12345);
    cpu.write(REG_Q, 0xFEDC);
    assert_eq!(cpu.read_io(1), 0o12345);
    assert_eq!(cpu.read_io(2), 0xFEDC);
    cpu.write_io(1, 0o54321);
    cpu.write_io(2, 0xABCD);
    assert_eq!(cpu.read(REG_L), 0o54321);
    assert_eq!(cpu.read(REG_Q), 0xABCD);
    cpu.mem.timers.scaler = (5 << 14) | 7;
    assert_eq!(cpu.read_io(3), 5);
    assert_eq!(cpu.read_io(4), 7);
    cpu.write_io(0o13, 0o40100);
    assert!(cpu.mem.timers.get_time6_enable());
    assert_eq!(cpu.read_io(0o13), 0o40100);
    cpu.write_io(0o13, 0o00100);
    assert!(!cpu.mem.timers.get_time6_enable());
    assert_eq!(cpu.read_io(0o13), 0o00100);
    cpu.write_io(0o7, 0o77777);
    assert_eq!(cpu.read_io(0o7), 0o160);
    assert!(cpu.mem.superbank);
    cpu.write_io(0o32, 0);
    assert_eq!(cpu.read_io(0o32), 0o77777);
    cpu.write_io(0o34, 1);
    assert_eq!(cpu.mem.timers.downrupt_flags, 1);
    cpu.write_io(0o35, 2);
    assert_eq!(cpu.mem.timers.downrupt_flags, 0);
    assert_eq!(cpu.mem.timers.downrupt, 0);
    assert_eq!(cpu.read_io(0o34), 0o77777);
    assert_eq!(cpu.read_io(0o15), 0);
    assert_eq!(cpu.mem.check_interrupts(), 0);
    let timers = cpu.mem.fetch_timers();
    timers.set_time6_enable(true);
    assert!(cpu.mem.timers.get_time6_enable());
}

#[test]
fn time6_counts_down_through_the_machine() {
    let mut cpu = init_agc();
    for i in 0..27 {
        cpu.write(0x800 + i, 0o10000 + 0x801 + i as u16);
    }
    cpu.write(0x800 + 26, 0o10000 + 0x800);
    cpu.reset();
    cpu.write(0o31, 0o00007);
    for _i in 0..60 {
        cpu.step();
    }
    assert_eq!(cpu.read(0o31), 0o00007);
    cpu.write_io(0o13, 0o40000);
    for _i in 0..60 {
        cpu.step();
    }
    assert!(cpu.read(0o31) < 0o00007);
}

#[test]
fn double_precision_registers() {
    let mut cpu = init_agc();
    cpu.write_dp(REG_A, 0o3777777777);
    assert_eq!(cpu.read(REG_A), 0o177777);
    assert_eq!(cpu.read(REG_L), 0o77777);
    cpu.write_s15(0o200, 0o37777);
    cpu.write_s15(0o201, 0o40000);
    assert_eq!(cpu.read_dp(0o200), 0o1777700001);
    cpu.write_s15(0o200, 0o40000);
    cpu.write_s15(0o201, 0o37777);
    assert_eq!(cpu.read_dp(0o200), 0o2000077776);
}

#[test]
fn interrupts_of_the_peripherals_are_joined() {
    let rope = rope_with(&[]);
    let mut mm = AgcMemoryMap::new(&rope, Probe::new(0, 0o00401), Probe::new(0, 0o00040));
    assert_eq!(mm.io.joined_interrupts(0o00040, 0o00401), 0o00441);
    assert_eq!(mm.io.joined_interrupts(0, 0), 0);
    assert_eq!(mm.check_interrupts(), 0o00441);
    assert_eq!(mm.io.check_interrupt(), 0);

    let mut blank = AgcMemoryMap::new_blank();
    assert_eq!(blank.io.joined_interrupts(0o00040, 0o00401), 0);
    assert_eq!(blank.check_interrupts(), 0);
}
