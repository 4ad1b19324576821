use ragc::consts::cpu::REG_A;
use ragc::consts::cpu::REG_L;
use ragc::consts::cpu::REG_Z;
use ragc::cpu::AgcCpu;
use ragc::instr::AgcInst;
use ragc::instr::ldst::AgcLoadStore;
use ragc::mem::AgcMemoryMap;
use ragc::mem::periph::NoPeriph;

fn init_agc() -> AgcCpu<NoPeriph, NoPeriph> {
    let mut mm = AgcMemoryMap::new_blank();
    mm.enable_rom_write();
    AgcCpu::new(mm)
}

fn validate_cpu_state(cpu: &mut AgcCpu<NoPeriph, NoPeriph>, expect_pc: u16) {
    assert_eq!(cpu.read(REG_Z), expect_pc);
}

#[test]
fn ts_test_positive_ovsk() {
    let mut cpu = init_agc();

    cpu.write(0x800, 0o54000 + 0o100);
    cpu.write(0x801, 0o30000 + 0o200);
    cpu.write(0x802, 0o30000 + 0o300);
    cpu.reset();

    cpu.write(REG_A, 0x4000);
    cpu.write(0o300, 0x00AA);
    cpu.write(0o200, 0x00BB);

    cpu.step();
    validate_cpu_state(&mut cpu, 0x802);
    assert_eq!(cpu.read(REG_A), 0x0001);

    cpu.step();
    validate_cpu_state(&mut cpu, 0x803);
    assert_eq!(cpu.read(REG_A), 0x00AA);
}

#[test]
fn tests_lxch_no_overflow() {

    let mut cpu = init_agc();
    let mut inst = AgcInst::new();

    inst.inst_data = 0o00000;
    cpu.write_s16(REG_A, 0o000001);
    cpu.write_s16(REG_L, 0o177777);
    assert_eq!(0o000001, cpu.read(REG_A));
    assert_eq!(0o077777, cpu.read(REG_L));

    cpu.lxch(&inst);

    assert_eq!(0o000001, cpu.read(REG_L));
    assert_eq!(0o177777, cpu.read(REG_A));
}

#[test]
fn tests_lxch_with_overflow() {

    let mut cpu = init_agc();
    let mut inst = AgcInst::new();

    inst.inst_data = 0o00000;
    cpu.write_s16(REG_A, 0o137777);
    cpu.write_s16(REG_L, 0o000001);
    assert_eq!(0o137777, cpu.read(REG_A));
    assert_eq!(0o000001, cpu.read(REG_L));

    cpu.lxch(&inst);

    assert_eq!(0o000001, cpu.read(REG_A));
    assert_eq!(0o077777, cpu.read(REG_L));
}
