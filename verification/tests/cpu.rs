use ragc::consts::cpu::REG_A;
use ragc::consts::cpu::REG_L;
use ragc::consts::cpu::REG_PC;
use ragc::consts::cpu::REG_Q;
use ragc::consts::cpu::REG_Z;
use ragc::cpu::AgcCpu;
use ragc::instr::AgcInst;
use ragc::instr::ldst::AgcLoadStore;
use ragc::mem::AgcMemoryMap;
use ragc::mem::periph::NoPeriph;
use ragc::mem::timer::MM_TIME1;
use ragc::mem::timer::MM_TIME2;
use ragc::mem::timer::MM_TIME3;
use ragc::mem::timer::MM_TIME4;
use ragc::mem::timer::MM_TIME5;

fn init_agc() -> AgcCpu<NoPeriph, NoPeriph> {
    let mut mm = AgcMemoryMap::new_blank();
    mm.enable_rom_write();
    AgcCpu::new(mm)
}

fn validate_cpu_state(cpu: &mut AgcCpu<NoPeriph, NoPeriph>, expect_pc: u16) {
    assert_eq!(cpu.read(REG_Z), expect_pc);
}

#[test]
fn io_read_test() {
    let mut cpu = init_agc();
    let src = [
        (REG_L, 0x7FDD, 1, 0xFFDD),
        (REG_L, 0x3FCC, 1, 0x3FCC),
        (REG_Q, 0x7FAA, 2, 0x7FAA),
        (REG_Q, 0xFFBB, 2, 0xFFBB),
    ];

    for (reg, reg_val, idx, expect_result) in src.iter() {
        let inst_data: u16 = 0o00000 + *idx as u16;

        cpu.write(0x800, 0o00006);
        cpu.write(0x801, inst_data);
        cpu.reset();

        cpu.write(*reg, *reg_val);
        cpu.step();
        cpu.step();

        validate_cpu_state(&mut cpu, 0x802);
        assert_eq!(cpu.read(REG_A), *expect_result);
    }
}

#[test]
fn io_ror_test() {
    let mut cpu = init_agc();
    let src = [
        (0x00AA, REG_L, 0x0055, 1, 0x00FF),
        (0x00AA, REG_Q, 0x0055, 2, 0x00FF),
        (0x00AA, REG_L, 0x7000, 1, 0xF0AA),
        (0x00AA, REG_Q, 0xF000, 2, 0xF0AA),
        (0x40AA, REG_L, 0x0100, 1, 0x01AA),
        (0x80AA, REG_L, 0x0100, 1, 0xC1AA),
        (0x40AA, REG_L, 0x4F00, 1, 0xCFAA),
        (0xAA0A, REG_Q, 0x5550, 2, 0xFF5A),
        (0x0A0A, REG_Q, 0x5550, 2, 0x5F5A),
    ];

    for (a_val, reg, reg_val, idx, expect_a_result) in src.iter() {
        let inst_data: u16 = 0o04000 + *idx as u16;

        cpu.write(0x800, 0o00006);
        cpu.write(0x801, inst_data);
        cpu.reset();

        cpu.write(REG_A, *a_val);
        cpu.write(*reg, *reg_val);
        cpu.step();
        cpu.step();

        validate_cpu_state(&mut cpu, 0x802);
        assert_eq!(cpu.read(REG_A), *expect_a_result);
    }
}

#[test]
fn io_rand_test() {
    let mut cpu = init_agc();
    let src = [
        (0x00AA, REG_L, 0x00FF, 1, 0x00AA),
        (0x00AA, REG_Q, 0x00FF, 2, 0x00AA),
        (0xC0AA, REG_L, 0x70FF, 1, 0xC0AA),
        (0xC0AA, REG_Q, 0xF0FF, 2, 0xC0AA),
        (0x40AA, REG_L, 0x4000, 1, 0x0000),
        (0x80AA, REG_L, 0x4000, 1, 0xC000),
        (0x40AA, REG_Q, 0x4000, 2, 0x4000),
        (0x80AA, REG_Q, 0x4000, 2, 0x0000),
        (0x80AA, REG_L, 0x40FF, 1, 0xC0AA),
        (0xAAAA, REG_Q, 0xAAA0, 2, 0xAAA0),
        (0x5555, REG_Q, 0x5550, 2, 0x5550),
    ];

    for (a_val, reg, reg_val, idx, expect_a_result) in src.iter() {
        let inst_data: u16 = 0o02000 + *idx as u16;

        cpu.write(0x800, 0o00006);
        cpu.write(0x801, inst_data);
        cpu.reset();

        cpu.write(REG_A, *a_val);
        cpu.write(*reg, *reg_val);
        cpu.step();
        cpu.step();

        validate_cpu_state(&mut cpu, 0x802);
        assert_eq!(cpu.read(REG_A), *expect_a_result);
    }
}

#[test]
fn io_rxor_test() {
    let mut cpu = init_agc();
    let src = [
        (0x00AA, REG_L, 0x0055, 1, 0x00FF),
        (0x00AA, REG_Q, 0x0055, 2, 0x00FF),
        (0x00AA, REG_L, 0x4000, 1, 0xC0AA),
        (0x80AA, REG_Q, 0x4000, 2, 0xC0AA),
        (0x40AA, REG_L, 0x0000, 1, 0x00AA),
        (0x80AA, REG_L, 0x0000, 1, 0xC0AA),
        (0x40AA, REG_L, 0x4000, 1, 0xC0AA),
        (0xAAAA, REG_Q, 0x5550, 2, 0xFFFA),
        (0x5555, REG_Q, 0x5550, 2, 0x0005),
    ];

    for (a_val, reg, reg_val, idx, expect_a_result) in src.iter() {
        let inst_data: u16 = 0o06000 + *idx as u16;

        cpu.write(0x800, 0o00006);
        cpu.write(0x801, inst_data);
        cpu.reset();

        cpu.write(REG_A, *a_val);
        cpu.write(*reg, *reg_val);
        cpu.step();
        cpu.step();

        validate_cpu_state(&mut cpu, 0x802);
        assert_eq!(cpu.read(REG_A), *expect_a_result);
    }
}

#[test]
fn io_write_test() {
    let mut cpu = init_agc();
    let src = [
        (REG_L, 0xFFDD, 1, 0x7FDD),
        (REG_L, 0x3FCC, 1, 0x3FCC),
        (REG_Q, 0x7FAA, 2, 0x7FAA),
        (REG_Q, 0xFFBB, 2, 0xFFBB),
    ];

    for (reg, reg_val, idx, expect_result) in src.iter() {
        let inst_data: u16 = 0o01000 + *idx as u16;

        cpu.write(0x800, 0o00006);
        cpu.write(0x801, inst_data);
        cpu.reset();

        cpu.write(REG_A, *reg_val);
        cpu.step();
        cpu.step();

        validate_cpu_state(&mut cpu, 0x802);
        assert_eq!(cpu.read(*reg), *expect_result);
    }
}

#[test]
fn io_wor_test() {
    let mut cpu = init_agc();
    let src = [
        (0x00AA, REG_L, 0x0055, 1, 0x00FF, 0x00FF),
        (0x00AA, REG_Q, 0x0055, 2, 0x00FF, 0x00FF),
        (0x00AA, REG_L, 0x7000, 1, 0xF0AA, 0x70AA),
        (0x00AA, REG_Q, 0xF000, 2, 0xF0AA, 0xF0AA),
        (0x40AA, REG_L, 0x0100, 1, 0x01AA, 0x01AA),
        (0x80AA, REG_L, 0x0100, 1, 0xC1AA, 0x41AA),
        (0x40AA, REG_L, 0x4F00, 1, 0xCFAA, 0x4FAA),
        (0xAA0A, REG_Q, 0x5550, 2, 0xFF5A, 0xFF5A),
        (0x0A0A, REG_Q, 0x5550, 2, 0x5F5A, 0x5F5A),
    ];

    for (a_val, reg, reg_val, idx, expect_a_result, expect_reg_result) in src.iter() {
        let inst_data: u16 = 0o05000 + *idx as u16;

        cpu.write(0x800, 0o00006);
        cpu.write(0x801, inst_data);
        cpu.reset();

        cpu.write(REG_A, *a_val);
        cpu.write(*reg, *reg_val);
        cpu.step();
        cpu.step();

        validate_cpu_state(&mut cpu, 0x802);
        assert_eq!(cpu.read(REG_A), *expect_a_result);
        assert_eq!(cpu.read(*reg), *expect_reg_result);
    }
}

#[test]
fn io_wand_test() {
    let mut cpu = init_agc();
    let src = [
        (0x00AA, REG_L, 0x00FF, 1, 0x00AA, 0x00AA),
        (0x00AA, REG_Q, 0x00FF, 2, 0x00AA, 0x00AA),
        (0xC0AA, REG_L, 0x70FF, 1, 0xC0AA, 0x40AA),
        (0xC0AA, REG_Q, 0xF0FF, 2, 0xC0AA, 0xC0AA),
        (0x40AA, REG_L, 0x4000, 1, 0x0000, 0x0000),
        (0x80AA, REG_L, 0x4000, 1, 0xC000, 0x4000),
        (0x40AA, REG_Q, 0x4000, 2, 0x4000, 0x4000),
        (0x80AA, REG_Q, 0x4000, 2, 0x0000, 0x0000),
        (0x80AA, REG_L, 0x40FF, 1, 0xC0AA, 0x40AA),
        (0xAAAA, REG_Q, 0xAAA0, 2, 0xAAA0, 0xAAA0),
        (0x5555, REG_Q, 0x5550, 2, 0x5550, 0x5550),
    ];

    for (a_val, reg, reg_val, idx, expect_a_result, expect_reg_result) in src.iter() {
        let inst_data: u16 = 0o03000 + *idx as u16;

        cpu.write(0x800, 0o00006);
        cpu.write(0x801, inst_data);
        cpu.reset();

        cpu.write(REG_A, *a_val);
        cpu.write(*reg, *reg_val);
        cpu.step();
        cpu.step();

        validate_cpu_state(&mut cpu, 0x802);
        assert_eq!(cpu.read(REG_A), *expect_a_result);
        assert_eq!(cpu.read(*reg), *expect_reg_result);
    }
}

#[test]
fn ldst_ts_test_positive_ovsk() {
    let mut cpu = init_agc();

    cpu.write(0x800, 0o54000 + 0o100);
    cpu.write(0x801, 0o30000 + 0o200);
    cpu.write(0x802, 0o30000 + 0o300);
    cpu.reset();

    cpu.write(REG_A, 0x4000);
    cpu.write(0o300, 0x00AA);
    cpu.write(0o200, 0x00BB);

    cpu.step();
    validate_cpu_state(&mut cpu, 0x802);
    assert_eq!(cpu.read(REG_A), 0x0001);

    cpu.step();
    validate_cpu_state(&mut cpu, 0x803);
    assert_eq!(cpu.read(REG_A), 0x00AA);
}

#[test]
fn ldst_tests_lxch_no_overflow() {

    let mut cpu = init_agc();
    let mut inst = AgcInst::new();

    inst.inst_data = 0o00000;
    cpu.write_s16(REG_A, 0o000001);
    cpu.write_s16(REG_L, 0o177777);
    assert_eq!(0o000001, cpu.read(REG_A));
    assert_eq!(0o077777, cpu.read(REG_L));

    cpu.lxch(&inst);

    assert_eq!(0o000001, cpu.read(REG_L));
    assert_eq!(0o177777, cpu.read(REG_A));
}

#[test]
fn ldst_tests_lxch_with_overflow() {

    let mut cpu = init_agc();
    let mut inst = AgcInst::new();

    inst.inst_data = 0o00000;
    cpu.write_s16(REG_A, 0o137777);
    cpu.write_s16(REG_L, 0o000001);
    assert_eq!(0o137777, cpu.read(REG_A));
    assert_eq!(0o000001, cpu.read(REG_L));

    cpu.lxch(&inst);

    assert_eq!(0o000001, cpu.read(REG_A));
    assert_eq!(0o077777, cpu.read(REG_L));
}

#[test]
fn ad_add() {
    let mut cpu = init_agc();

    let mut inst_data: u16 = 0o60000 + REG_L as u16;
    cpu.write(0x800, inst_data);
    cpu.reset();

    cpu.write(REG_A, 0x10);
    cpu.write(REG_L, 0x10);
    cpu.step();

    let mut result = cpu.read(REG_A);
    validate_cpu_state(&mut cpu, 0x801);
    assert_eq!(result, 0x20);

    inst_data = 0o60000 + 0o200 as u16;
    cpu.write(0x800, inst_data);
    cpu.reset();

    cpu.write(REG_A, 0x10);
    cpu.write(0o200, 0x10);
    cpu.step();

    result = cpu.read(REG_A);
    validate_cpu_state(&mut cpu, 0x801);
    assert_eq!(result, 0x20);
}

#[test]
fn ad_overflow() {
    let mut cpu = init_agc();

    let mut inst_data: u16 = 0o60000 + REG_L as u16;
    cpu.write(0x800, inst_data);
    cpu.reset();

    cpu.write(REG_A, 0x3FFF);
    cpu.write(REG_L, 0x0001);
    cpu.step();

    let mut result = cpu.read(REG_A);
    validate_cpu_state(&mut cpu, 0x801);
    assert_eq!(result, 0x4000);

    inst_data = 0o60000 + 0o200 as u16;
    cpu.write(0x800, inst_data);
    cpu.reset();

    cpu.write(REG_A, 0x3FFF);
    cpu.write(0o200, 0x0001);
    cpu.step();

    result = cpu.read(REG_A);
    validate_cpu_state(&mut cpu, 0x801);
    assert_eq!(result, 0x4000);
}

#[test]
fn ad_underflow() {
    let mut cpu = init_agc();

    let mut inst_data: u16 = 0o60000 + REG_L as u16;
    cpu.write(0x800, inst_data);
    cpu.reset();

    cpu.write(REG_A, 0xC000);
    cpu.write(REG_L, 0xFFFE);
    cpu.step();

    let mut result = cpu.read(REG_A);
    validate_cpu_state(&mut cpu, 0x801);
    assert_eq!(result, 0xBFFF);

    inst_data = 0o60000 + 0o200 as u16;
    cpu.write(0x800, inst_data);
    cpu.reset();

    cpu.write(REG_A, 0xC000);
    cpu.write(0o200, 0xFFFE);
    cpu.step();

    result = cpu.read(REG_A);
    validate_cpu_state(&mut cpu, 0x801);
    assert_eq!(result, 0xBFFF);
}

#[test]
fn ad_test_sub1() {
    let mut cpu = init_agc();

    let inst_data: u16 = 0o60000 + REG_L as u16;
    cpu.write(0x800, inst_data);
    cpu.reset();

    cpu.write(REG_A, 0xFFFE);
    cpu.write(REG_L, 0xFFFE);
    cpu.step();

    let result = cpu.read(REG_A);
    validate_cpu_state(&mut cpu, 0x801);
    println!("Result {:x}", result);
    assert_eq!(result, 0xFFFD);
}

#[test]
fn ad_test_sub2() {
    let mut cpu = init_agc();

    let inst_data: u16 = 0o60000 + REG_L as u16;
    cpu.write(0x800, inst_data);
    cpu.reset();

    cpu.write(REG_A, 0x0020);
    cpu.write(REG_L, 0xFFFD);
    cpu.step();

    let result = cpu.read(REG_A);
    validate_cpu_state(&mut cpu, 0x801);
    println!("Result {:x}", result);
    assert_eq!(result, 0x1E);
}

#[test]
fn ads_add() {
    let mut cpu = init_agc();

    let mut inst_data: u16 = 0o26000 + REG_L as u16;
    cpu.write(0x800, inst_data);
    cpu.reset();

    cpu.write(REG_A, 0x10);
    cpu.write(REG_L, 0x10);
    cpu.step();

    let mut result = cpu.read(REG_A);
    let mut result1 = cpu.read(REG_L);
    validate_cpu_state(&mut cpu, 0x801);
    assert_eq!(result, 0x20);
    assert_eq!(result1, 0x20);

    inst_data = 0o26000 + 0o200 as u16;
    cpu.write(0x800, inst_data);
    cpu.reset();

    cpu.write(REG_A, 0x10);
    cpu.write(0o200, 0x10);
    cpu.step();

    result = cpu.read(REG_A);
    result1 = cpu.read(0o200);
    validate_cpu_state(&mut cpu, 0x801);
    assert_eq!(result, 0x20);
    assert_eq!(result1, 0x20);
}

#[test]
fn ads_overflow() {
    let mut cpu = init_agc();
    let srcs = [REG_L, 0o200];

    for i in srcs.iter() {
        let idx = *i;
        let inst_data: u16 = 0o26000 + idx as u16;
        cpu.write(0x800, inst_data);
        cpu.reset();

        cpu.write(REG_A, 0x3FFF);
        cpu.write(idx, 0x0001);
        cpu.step();

        validate_cpu_state(&mut cpu, 0x801);
        assert_eq!(cpu.read(REG_A), 0x4000);
        assert_eq!(cpu.read(idx), 0x0000);
        assert_eq!(cpu.read_s16(idx), 0x0000);
    }
}

#[test]
fn ads_underflow() {
    let mut cpu = init_agc();
    let srcs = [REG_L, 0o200];

    for i in srcs.iter() {
        let idx = *i;
        let inst_data: u16 = 0o26000 + idx as u16;
        cpu.write(0x800, inst_data);
        cpu.reset();

        cpu.write(REG_A, 0xC000);
        cpu.write(idx, 0xFFFE);
        cpu.step();

        validate_cpu_state(&mut cpu, 0x801);
        assert_eq!(cpu.read(REG_A), 0xBFFF);
        assert_eq!(cpu.read(idx), 0x7FFF);
        assert_eq!(cpu.read_s16(idx), 0xFFFF);
    }
}

#[test]
fn ads_sub1() {
    let mut cpu = init_agc();
    let srcs = [REG_L, 0o200];

    for i in srcs.iter() {
        let idx = *i;
        let inst_data: u16 = 0o26000 + idx as u16;

        cpu.write(0x800, inst_data);
        cpu.reset();

        cpu.write(REG_A, 0xFFFE);
        cpu.write(idx, 0xFFFE);
        cpu.step();

        validate_cpu_state(&mut cpu, 0x801);
        assert_eq!(cpu.read(REG_A), 0xFFFD);
        assert_eq!(cpu.read(idx), 0x7FFD);
        assert_eq!(cpu.read_s16(idx), 0xFFFD);
    }
}

#[test]
fn ads_sub2() {
    let mut cpu = init_agc();
    let srcs = [REG_L, 0o200];

    for i in srcs.iter() {
        let idx = *i;
        let inst_data: u16 = 0o26000 + idx as u16;

        cpu.write(0x800, inst_data);
        cpu.reset();

        cpu.write(REG_A, 0x20);
        cpu.write(idx, 0xFFFD);
        cpu.step();

        validate_cpu_state(&mut cpu, 0x801);
        assert_eq!(cpu.read(REG_A), 0x1E);
        assert_eq!(cpu.read(idx), 0x1E);
        assert_eq!(cpu.read_s16(idx), 0x1E);
    }
}

#[test]
fn aug_positive() {
    let mut cpu = init_agc();
    let srcs = [(REG_A, 0x11), (REG_L, 0x11), (0o200, 0x11)];

    for (i, val) in srcs.iter() {
        let idx = *i;

        let inst_data: u16 = 0o24000 + idx as u16;
        cpu.write(0x800, 0o00006);
        cpu.write(0x801, inst_data);
        cpu.reset();

        cpu.write(idx, 0x10);
        cpu.step();
        cpu.step();

        validate_cpu_state(&mut cpu, 0x802);
        assert_eq!(cpu.read_s16(idx), *val);
    }
}

#[test]
fn aug_negative() {
    let mut cpu = init_agc();
    let srcs = [
        (REG_A, 0xFFFB, 0xFFFA),
        (REG_Q, 0xFFFB, 0xFFFA),
        (REG_L, 0x7FFB, 0x7FFA),
        (0o200, 0x7FFB, 0x7FFA),
    ];

    for (i, init, val) in srcs.iter() {
        let idx = *i;

        let inst_data: u16 = 0o24000 + idx as u16;
        cpu.write(0x800, 0o00006);
        cpu.write(0x801, inst_data);
        cpu.reset();

        cpu.write(idx, *init);
        cpu.step();
        cpu.step();

        validate_cpu_state(&mut cpu, 0x802);
        assert_eq!(
            cpu.read(idx),
            *val,
            "Failed comparison: e:{:o} | r:{:o}",
            *val,
            cpu.read(idx)
        );
    }
}

#[test]
fn aug_positive_16bit() {
    let mut cpu = init_agc();
    let srcs = [(REG_A, 0x4000), (REG_Q, 0x4000)];

    for (i, val) in srcs.iter() {
        let idx = *i;
        let inst_data: u16 = 0o24000 + idx as u16;

        cpu.write(0x800, 0o00006);
        cpu.write(0x801, inst_data);
        cpu.reset();

        cpu.write(idx, 0x3FFF);
        cpu.step();
        cpu.step();

        validate_cpu_state(&mut cpu, 0x802);
        println!("{:x} | {:x}", cpu.read(idx), *val);
        assert_eq!(
            cpu.read(idx),
            *val,
            "Aug Instruction failed. e{:o} | r:{:o}",
            *val,
            cpu.read(idx)
        );
    }
}

#[test]
fn incr_tests() {
    let mut cpu = init_agc();
    let srcs = [
        (REG_A, 0x000F, 0x0010),
        (REG_Q, 0x000F, 0x0010),
        (REG_L, 0x000F, 0x0010),
        (0o200, 0x000F, 0x0010),
        (REG_A, 0xFF00, 0xFF01),
        (REG_Q, 0xFF00, 0xFF01),
        (REG_L, 0x7F00, 0x7F01),
        (0o200, 0x7F00, 0x7F01),
        (REG_A, 0xFFFF, 0x0001),
        (REG_Q, 0xFFFF, 0x0001),
        (REG_L, 0x7FFF, 0x0001),
        (0o200, 0x7FFF, 0x0001),
        (REG_A, 0x0000, 0x0001),
        (REG_Q, 0x0000, 0x0001),
        (REG_L, 0x0000, 0x0001),
        (0o200, 0x0000, 0x0001),
        (REG_Q, 0x0000, 0x0001),
        (REG_L, 0o37777, 0o00000),
        (0o200, 0o37777, 0o00000),
    ];

    for (i, start_val, expect_res) in srcs.iter() {
        let idx = *i;
        let inst_data: u16 = 0o24000 + idx as u16;

        println!("Testing INCR: {:x} {:x} {:x}", idx, start_val, expect_res);
        cpu.write(0x800, inst_data);
        cpu.reset();

        cpu.write(idx, *start_val);
        cpu.step();

        validate_cpu_state(&mut cpu, 0x801);
        assert_eq!(cpu.read(idx), *expect_res);
    }
}

#[test]
fn arith_dv_tests_known_set() {
    let mut cpu = init_agc();
    let srcs = [
        (0o17777, 0o40000, 0o20000, 0o37774, 0o00001),
        (0o60000, 0o37777, 0o20000, 0o40003, 0o77776),
    ];

    for (rega, regl, divisor, quotent, remainder) in srcs.iter() {
        let inst_data: u16 = 0o10200;

        println!(
            "Testing DV: {:o} {:o} {:o} => q: {:o} r: {:o}",
            rega, regl, divisor, quotent, remainder
        );
        cpu.write(0x800, 0o00006);
        cpu.write(0x801, inst_data);

        cpu.reset();
        cpu.write_s15(REG_A, *rega);
        cpu.write_s15(REG_L, *regl);
        cpu.write_s15(0o200, *divisor);

        cpu.step();
        validate_cpu_state(&mut cpu, 0x801);
        cpu.step();
        validate_cpu_state(&mut cpu, 0x802);

        assert_eq!(cpu.read_s15(REG_A), *quotent);
        assert_eq!(cpu.read_s15(REG_L), *remainder);
    }
}

#[test]
fn arith_dim_tests() {
    let mut cpu = init_agc();
    let srcs = [
        (REG_A, 0o00000, 0o00000),
        (REG_A, 0o177777, 0o177777),
        (REG_A, 0o177776, 0o177777),
        (REG_L, 0o00000, 0o00000),
        (REG_L, 0o177777, 0o77777),
        (REG_L, 0o177776, 0o77777),
        (REG_Q, 0o00000, 0o00000),
        (REG_Q, 0o177777, 0o177777),
        (REG_Q, 0o177776, 0o177777),
        (0o200, 0o00000, 0o00000),
        (0o200, 0o177777, 0o77777),
        (0o200, 0o177776, 0o77777),
    ];

    for (idx, val, expected) in srcs.iter() {
        let inst_data: u16 = 0o26000 + (*idx as u16);

        cpu.write(0x800, 0o00006);
        cpu.write(0x801, inst_data);
        cpu.reset();

        cpu.write(*idx, *val);
        cpu.step();
        validate_cpu_state(&mut cpu, 0x801);
        cpu.step();
        validate_cpu_state(&mut cpu, 0x802);
        assert_eq!(cpu.read(*idx), *expected);
    }
}

#[test]
fn arith_msu_tests() {
    let mut cpu = init_agc();
    let srcs = [
        (0o00002, 0o200, 0o00003, 0o177776),
        (0o00002, 0o200, 0o77776, 0o000004),
        (0o20000, 0o200, 0o30000, 0o167777),
        (0o00002, REG_Q, 0o00003, 0o177776),
        (0o00002, REG_Q, 0o177776, 0o000004),
        (0o20000, REG_Q, 0o30000, 0o167777),
    ];

    for (rega, idx, kval, expected) in srcs.iter() {
        let inst_data: u16 = 0o20000 + (*idx as u16);

        cpu.write(0x800, 0o00006);
        cpu.write(0x801, inst_data);

        cpu.reset();
        cpu.write(REG_A, *rega);
        cpu.write(*idx, *kval);

        cpu.step();
        validate_cpu_state(&mut cpu, 0x801);
        cpu.step();
        validate_cpu_state(&mut cpu, 0x802);

        assert_eq!(
            cpu.read(REG_A),
            *expected,
            "Failed MSU Test: A: {:06o} | K[{:o}] = {:06o} = e:{:06o}|a:{:06o}",
            rega,
            idx,
            kval,
            expected,
            cpu.read(REG_A)
        );
    }
}

#[test]
fn arith_su_tests() {
    let mut cpu = init_agc();
    let srcs = [
        (0o20000, 0o200, 0o77776, 0o20001),
        (0o20000, 0o200, 0o20000, 0o177777),
        (0o20000, 0o200, 0o20001, 0o177776),
        (0o20000, REG_Q, 0o177776, 0o20001),
        (0o20000, REG_Q, 0o070000, 0o127777),
        (0o20000, REG_Q, 0o020000, 0o177777),
        (0o20000, REG_Q, 0o020001, 0o177776),
        (0o170000, REG_Q, 0o00011, 0o167767),
    ];

    for (rega, idx, kval, expected) in srcs.iter() {
        let inst_data: u16 = 0o60000 + (*idx as u16);

        println!("Testing SU: {:o} {:o} {:o}", rega, kval, expected);
        cpu.write(0x800, 0o00006);
        cpu.write(0x801, inst_data);

        cpu.reset();
        cpu.write(REG_A, *rega);
        cpu.write(*idx, *kval);

        cpu.step();
        validate_cpu_state(&mut cpu, 0x801);
        cpu.step();
        validate_cpu_state(&mut cpu, 0x802);

        assert_eq!(cpu.read(REG_A), *expected);
    }
}

#[test]
fn arith_mp_tests() {
    let mut cpu = init_agc();
    let srcs = [
        (0o00002, 0o200, 0o00002, 0o000000, 0o00004),
        (0o77775, 0o200, 0o77775, 0o000000, 0o00004),
        (0o00002, 0o200, 0o77775, 0o177777, 0o77773),
        (0o77775, 0o200, 0o00002, 0o177777, 0o77773),
        (0o00000, 0o200, 0o00000, 0o000000, 0o00000),
        (0o77777, 0o200, 0o77777, 0o000000, 0o00000),
        (0o00000, 0o200, 0o77777, 0o000000, 0o00000),
        (0o77777, 0o200, 0o00000, 0o000000, 0o00000),
        (0o77777, 0o200, 0o00001, 0o177777, 0o77777),
        (0o00000, 0o200, 0o77776, 0o177777, 0o77777),
        (0o00001, 0o200, 0o77777, 0o000000, 0o00000),
        (0o77776, 0o200, 0o00000, 0o000000, 0o00000),
    ];

    for (aval, k, kval, exp_aval, exp_lval) in srcs.iter() {
        let inst_data: u16 = 0o70000 + (*k as u16);
        println!(
            "Testing MP: {:o} {:o} {:o} {:o}",
            aval, kval, exp_aval, exp_lval
        );

        cpu.write(0x800, 0o00006);
        cpu.write(0x801, inst_data);

        cpu.reset();
        cpu.write_s15(REG_A, *aval);
        cpu.write_s15(*k, *kval);

        cpu.step();
        validate_cpu_state(&mut cpu, 0x801);
        cpu.step();
        validate_cpu_state(&mut cpu, 0x802);

        assert_eq!(cpu.read(REG_L), *exp_lval);
    }
}

#[test]
fn scalar_read_test() {
    let mut cpu = init_agc();

    for scalar_count in 1..5 {
        for i in 0..27 * scalar_count {
            cpu.write(0x800 + i, 0o10000 + 0x801 + i as u16);
        }
        cpu.write(0x800 + 27, 0o00006);
        cpu.write(0x800 + 28, 0o00004);
        cpu.reset();

        for i in 0..29 {
            cpu.step();
            validate_cpu_state(&mut cpu, 0x801 + i as u16);
        }

        assert_eq!(scalar_count as u16, cpu.read_io(4));
        assert_eq!(scalar_count as u16, cpu.read(REG_A));
    }
}

#[test]
fn timer_increment_test() {
    let mut cpu = init_agc();
    let scalar_count = 32;

    for i in 0..27 {
        cpu.write(0x800 + i, 0o10000 + 0x801 + i as u16);
    }
    cpu.write(0x800 + 26, 0o10000 + 0x800);
    cpu.reset();

    for i in 0..27 * scalar_count {
        let current_pc = cpu.read(REG_Z);
        loop {
            cpu.step();
            if current_pc != cpu.read(REG_Z) {
                break;
            }
        }
        validate_cpu_state(&mut cpu, 0x800 + ((1 + i as u16) % 27));
    }

    assert_eq!(1, cpu.read(MM_TIME1));
    assert_eq!(0, cpu.read(MM_TIME2));
    assert_eq!(1, cpu.read(MM_TIME3));
    assert_eq!(1, cpu.read(MM_TIME4));
    assert_eq!(1, cpu.read(MM_TIME5));
}

#[test]
fn timer_interrupt_test() {
    let scalar_count = 32;
    let setup = [
        (MM_TIME3, 0x80C),
        (MM_TIME4, 0x810),
        (MM_TIME5, 0x808),
    ];

    for (timer_addr, interrupt_addr) in setup.iter() {
        println!("Testing {:?} interrupt", timer_addr);
        let mut cpu = init_agc();

        for i in 0..27 {
            cpu.write(0x900 + i, 0o10000 + 0x901 + i as u16);
        }
        cpu.write(0x900 + 26, 0o10000 + 0x900);
        cpu.write(0x800, 0o10000 + 0x900);
        cpu.reset();
        cpu.write(*timer_addr, 0o77777);
        cpu.step();
        validate_cpu_state(&mut cpu, 0x900);

        for i in 0..27 * scalar_count {
            let current_pc = cpu.read(REG_Z);
            loop {
                cpu.step();
                if current_pc != cpu.read(REG_Z) {
                    break;
                }
            }

            let pc = cpu.read(REG_Z);
            if pc == *interrupt_addr {
                assert_eq!(0o00000, cpu.read(MM_TIME3));
                break;
            } else {
                validate_cpu_state(&mut cpu, 0x900 + ((1 + i as u16) % 27));
            }
        }
    }
}

#[test]
fn timer_interrupt_priority_test() {
    let scalar_count = 32;
    let setup = [
        (MM_TIME3, 0x80C),
        (MM_TIME4, 0x810),
        (MM_TIME5, 0x808),
    ];

    for (timer_addr, interrupt_addr) in setup.iter() {
        println!("Testing {:?} interrupt", timer_addr);
        let mut cpu = init_agc();

        for i in 0..27 {
            cpu.write(0x900 + i, 0o10000 + 0x901 + i as u16);
        }
        cpu.write(0x900 + 26, 0o10000 + 0x900);
        cpu.write(0x800, 0o10000 + 0x900);
        cpu.reset();
        cpu.write(*timer_addr, 0o77777);
        cpu.step();
        validate_cpu_state(&mut cpu, 0x900);

        for i in 0..27 * scalar_count {
            let current_pc = cpu.read(REG_Z);
            loop {
                cpu.step();
                if current_pc != cpu.read(REG_Z) {
                    break;
                }
            }

            let pc = cpu.read(REG_Z);
            if pc == *interrupt_addr {
                assert_eq!(0o00000, cpu.read(MM_TIME3));
                break;
            } else {
                validate_cpu_state(&mut cpu, 0x900 + ((1 + i as u16) % 27));
            }
        }
    }
}

#[test]
fn cpu_read_dp_ram_tests() {
    let mut cpu = init_agc();
    let setup = [
        (0o37777, 0o37777, 0o1777777777),
        (0o37777, 0o40000, 0o1777700001),
        (0o37776, 0o00001, 0o1777700001),
        (0o17777, 0o40000, 0o777700001),
        (0o17776, 0o00001, 0o777700001),
        (0o77777, 0o77777, 0o3777777777),
        (0o67777, 0o77777, 0o3377777777),

    ];

    for (rega, regl, expect_val) in setup.iter() {
        cpu.reset();
        cpu.write(0o200, *rega);
        cpu.write(0o201, *regl);
        println!("read_dp: Testing {:o} {:o} => {:o}", rega, regl, expect_val);
        assert_eq!(cpu.read_s15(0o200), *rega);
        assert_eq!(cpu.read_s15(0o201), *regl);

        let a = cpu.read_dp(0o200);
        println!("Reading: {:o}", a);
        assert_eq!(a, *expect_val);
    }
}

#[test]
fn cpu_read_dp_rega_tests() {
    let mut cpu = init_agc();
    let setup = [
        (0o37777, 0o37777, 0o1777777777),
        (0o37777, 0o40000, 0o1777700001),
        (0o37776, 0o00001, 0o1777700001),
        (0o17777, 0o40000, 0o777700001),
        (0o17776, 0o00001, 0o777700001),
        (0o77777, 0o77777, 0o3777777777),
        (0o67777, 0o77777, 0o3377777777),
    ];

    for (rega, regl, expect_val) in setup.iter() {
        cpu.reset();
        cpu.write_s15(REG_A, *rega);
        cpu.write_s15(REG_L, *regl);
        println!("read_dp: Testing {:o} {:o} => {:o}", rega, regl, expect_val);
        assert_eq!(cpu.read_s15(REG_A), *rega, "Readback failed for REGA");
        assert_eq!(cpu.read_s15(REG_L), *regl, "Readback failed for REGL");
        let a = cpu.read_dp(REG_A);
        assert_eq!(a, *expect_val, "Readback failed for read_dp");
    }
}

#[test]
fn cpu_write_dp_rega_tests() {
    let mut cpu = init_agc();
    let setup = [
        (0o37777, 0o37777, 0o1777777777),
        (0o177777, 0o77777, 0o3777777777),
    ];

    for (expect_a, expect_l, val) in setup.iter() {
        cpu.reset();
        cpu.write_dp(REG_A, *val);
        println!(
            "read_dp: Testing {:o} => {:o} {:o}",
            *val, *expect_a, *expect_l
        );
        assert_eq!(cpu.read(REG_A), *expect_a);
        assert_eq!(cpu.read(REG_L), *expect_l);
        assert_eq!(*val, cpu.read_dp(REG_A));
    }
}

#[test]
fn cpu_test_ruptlock_restart() {
    let mut cpu = init_agc();

    cpu.write(0o04000, 0o04001);
    for i in 1..40 {
        cpu.write(0o04000 + i, 0o24000);
    }
    cpu.write(0o04000 + 40, 0o04001);
    cpu.restart();

    cpu.is_irupt = true;
    for _i in 0..12923 {
        cpu.step();
        assert_eq!(cpu.is_irupt, true);
    }

    cpu.step();
    assert_eq!(0o4000, cpu.read(REG_PC));
    assert_eq!(cpu.is_irupt, false);
}

#[test]
fn ccs_test() {
    let mut cpu = init_agc();
    let inst_data: u16 = 0o10000;

    cpu.write(0x800, inst_data);
    cpu.reset();
    cpu.write(REG_A, 0xfc2e);
    assert_eq!(cpu.read(REG_A), 0xfc2e);
    cpu.step();

    validate_cpu_state(&mut cpu, 0x803);
    assert_eq!(cpu.read(REG_A), 0x03d0);
}

#[test]
fn logic_mask_test() {
    let mut cpu = init_agc();
    let src = [
        (0x00AA, 0x200, 0x00FF, 0x00AA),
        (0x00AA, REG_Q, 0x00FF, 0x00AA),
        (0xC0AA, 0x200, 0x70FF, 0xC0AA),
        (0xC0AA, REG_Q, 0xF0FF, 0xC0AA),
        (0x40AA, 0x100, 0x7FFF, 0x00AA),
        (0x80AA, 0x100, 0x40FF, 0xC0AA),
        (0x40AA, REG_Q, 0x4000, 0x4000),
        (0x80AA, REG_Q, 0x4000, 0x0000),
        (0x80AA, 0x100, 0x40FF, 0xC0AA),
        (0xAAAA, REG_Q, 0xAAA0, 0xAAA0),
        (0x5555, REG_Q, 0x5550, 0x5550),
    ];

    for (a_val, idx, reg_val, expect_a_result) in src.iter() {
        let inst_data: u16 = 0o70000 + *idx as u16;

        cpu.write(0x800, inst_data);
        cpu.reset();

        cpu.write(REG_A, *a_val);
        cpu.write(*idx, *reg_val);
        cpu.step();

        validate_cpu_state(&mut cpu, 0x801);
        assert_eq!(cpu.read(REG_A), *expect_a_result);
    }
}

