use mos6502::cpu::{decode, AddrMode, Operation};
use mos6502::{ExecError, CPU, MEM};

fn fresh() -> (CPU, MEM) {
    let mut mem: MEM = MEM::default();
    let mut cpu: CPU = CPU::default();
    cpu.reset(&mut mem);
    (cpu, mem)
}

#[test]
fn reset_clears_registers_flags_and_memory() {
    let mut mem: MEM = MEM::default();
    let mut cpu = CPU { PC: 0x1234, SP: 0x10, A: 1, X: 2, Y: 3, C: 1, Z: 1, I: 1, D: 1, B: 1, V: 1, N: 1 };
    for i in 0..mem.data.len() {
        mem.data[i] = (i % 251) as u8 + 1;
    }
    cpu.reset(&mut mem);
    assert_eq!(cpu, CPU { PC: 0xFFFC, SP: 0xFF, A: 0, X: 0, Y: 0, C: 0, Z: 0, I: 0, D: 0, B: 0, V: 0, N: 0 });
    assert!(mem.data.iter().all(|&b| b == 0));
}

#[test]
fn default_cpu_is_all_zero() {
    let cpu = CPU::default();
    assert_eq!(cpu, CPU { PC: 0, SP: 0, A: 0, X: 0, Y: 0, C: 0, Z: 0, I: 0, D: 0, B: 0, V: 0, N: 0 });
}

#[test]
fn load_immediate_every_value() {
    for v in 0..=255u8 {
        let (mut cpu, mut mem) = fresh();
        cpu.Z = 1;
        cpu.N = 1;
        mem.data[0xFFFC] = CPU::INS_LDA_IM;
        mem.data[0xFFFD] = v;
        assert_eq!(cpu.step(&mut mem), Ok(2));
        assert_eq!(cpu.A, v);
        assert_eq!(cpu.Z, if v == 0 { 1 } else { 0 });
        assert_eq!(cpu.N, if v >= 0x80 { 1 } else { 0 });
        assert_eq!(cpu.PC, 0xFFFE);
    }
}

#[test]
fn load_zero_page_clears_stale_flags() {
    let (mut cpu, mut mem) = fresh();
    cpu.Z = 1;
    cpu.N = 1;
    mem.data[0xFFFC] = CPU::INS_LDA_ZP;
    mem.data[0xFFFD] = 0x42;
    mem.data[0x0042] = 0x37;
    assert_eq!(cpu.step(&mut mem), Ok(3));
    assert_eq!(cpu.A, 0x37);
    assert_eq!(cpu.Z, 0);
    assert_eq!(cpu.N, 0);
    assert_eq!(cpu.PC, 0xFFFE);
}

#[test]
fn load_zero_page_x_wraps_inside_zero_page() {
    let (mut cpu, mut mem) = fresh();
    cpu.X = 0xFF;
    mem.data[0xFFFC] = CPU::INS_LDA_ZP_X;
    mem.data[0xFFFD] = 0x80;
    mem.data[0x007F] = 0x99;
    mem.data[0x017F] = 0x11;
    assert_eq!(cpu.step(&mut mem), Ok(4));
    assert_eq!(cpu.A, 0x99);
    assert_eq!(cpu.N, 1);
    assert_eq!(cpu.PC, 0xFFFE);
}

#[test]
fn load_absolute_takes_four_cycles() {
    let (mut cpu, mut mem) = fresh();
    mem.data[0xFFFC] = CPU::INS_LDA_ABS;
    mem.data[0xFFFD] = 0x80;
    mem.data[0xFFFE] = 0x44;
    mem.data[0x4480] = 0x00;
    cpu.A = 5;
    assert_eq!(cpu.step(&mut mem), Ok(4));
    assert_eq!(cpu.A, 0);
    assert_eq!(cpu.Z, 1);
    assert_eq!(cpu.PC, 0xFFFF);
}

#[test]
fn load_absolute_x_without_page_cross() {
    let (mut cpu, mut mem) = fresh();
    cpu.X = 0x01;
    mem.data[0xFFFC] = CPU::INS_LDA_ABS_X;
    mem.data[0xFFFD] = 0x00;
    mem.data[0xFFFE] = 0x44;
    mem.data[0x4401] = 0x23;
    assert_eq!(cpu.step(&mut mem), Ok(4));
    assert_eq!(cpu.A, 0x23);
    assert_eq!(cpu.PC, 0xFFFF);
}

#[test]
fn load_absolute_x_page_cross_scenario() {
    let (mut cpu, mut mem) = fresh();
    cpu.X = 0x01;
    mem.data[0xFFFC] = CPU::INS_LDA_ABS_X;
    mem.data[0xFFFD] = 0xFF;
    mem.data[0xFFFE] = 0x44;
    mem.data[0x4500] = 0x56;
    assert_eq!(cpu.execute(4, &mut mem), Ok(-1));
    assert_eq!(cpu.A, 0x56);

    let (mut cpu, mut mem) = fresh();
    cpu.X = 0x01;
    mem.data[0xFFFC] = CPU::INS_LDA_ABS_X;
    mem.data[0xFFFD] = 0xFF;
    mem.data[0xFFFE] = 0x44;
    assert_eq!(cpu.step(&mut mem), Ok(5));
}

#[test]
fn load_absolute_y_with_and_without_page_cross() {
    let (mut cpu, mut mem) = fresh();
    cpu.Y = 0x10;
    mem.data[0xFFFC] = CPU::INS_LDA_ABS_Y;
    mem.data[0xFFFD] = 0x20;
    mem.data[0xFFFE] = 0x30;
    mem.data[0x3030] = 0x81;
    assert_eq!(cpu.step(&mut mem), Ok(4));
    assert_eq!(cpu.A, 0x81);
    assert_eq!(cpu.N, 1);

    let (mut cpu, mut mem) = fresh();
    cpu.Y = 0x10;
    mem.data[0xFFFC] = CPU::INS_LDA_ABS_Y;
    mem.data[0xFFFD] = 0xF8;
    mem.data[0xFFFE] = 0x30;
    mem.data[0x3108] = 0x07;
    assert_eq!(cpu.step(&mut mem), Ok(5));
    assert_eq!(cpu.A, 0x07);
}

#[test]
fn absolute_indexed_wraps_at_top_of_memory() {
    let (mut cpu, mut mem) = fresh();
    cpu.X = 0x02;
    mem.data[0xFFFC] = CPU::INS_LDA_ABS_X;
    mem.data[0xFFFD] = 0xFF;
    mem.data[0xFFFE] = 0xFF;
    mem.data[0x0001] = 0x44;
    assert_eq!(cpu.step(&mut mem), Ok(5));
    assert_eq!(cpu.A, 0x44);
}

#[test]
fn jump_to_subroutine_pushes_return_address() {
    let (mut cpu, mut mem) = fresh();
    mem.data[0xFFFC] = CPU::INS_JSR;
    mem.data[0xFFFD] = 0x34;
    mem.data[0xFFFE] = 0x12;
    assert_eq!(cpu.step(&mut mem), Ok(6));
    assert_eq!(cpu.PC, 0x1234);
    assert_eq!(cpu.SP, 0xFD);
    assert_eq!(mem.data[0x01FF], 0xFF);
    assert_eq!(mem.data[0x01FE], 0xFE);
    let lo = mem.data[0x0100 + cpu.SP as usize + 1] as u16;
    let hi = mem.data[0x0100 + cpu.SP as usize + 2] as u16;
    assert_eq!((lo | (hi << 8)).wrapping_add(1), 0xFFFF);
}

#[test]
fn jump_then_load_scenario() {
    let (mut cpu, mut mem) = fresh();
    mem.data[0xFFFC] = CPU::INS_JSR;
    mem.data[0xFFFD] = 0x42;
    mem.data[0xFFFE] = 0x42;
    mem.data[0x4242] = CPU::INS_LDA_IM;
    mem.data[0x4243] = 0x12;
    assert_eq!(cpu.execute(8, &mut mem), Ok(0));
    assert_eq!(cpu.PC, 0x4244);
    assert_eq!(cpu.A, 0x12);
    assert_eq!(cpu.Z, 0);
    assert_eq!(cpu.N, 0);
}

#[test]
fn zero_page_zero_scenario() {
    let (mut cpu, mut mem) = fresh();
    mem.data[0xFFFC] = CPU::INS_LDA_ZP;
    mem.data[0xFFFD] = 0x42;
    mem.data[0x0042] = 0x00;
    assert_eq!(cpu.execute(3, &mut mem), Ok(0));
    assert_eq!(cpu.A, 0x00);
    assert_eq!(cpu.Z, 1);
    assert_eq!(cpu.N, 0);
}

#[test]
fn immediate_negative_scenario() {
    let (mut cpu, mut mem) = fresh();
    mem.data[0xFFFC] = CPU::INS_LDA_IM;
    mem.data[0xFFFD] = 0x80;
    assert_eq!(cpu.execute(2, &mut mem), Ok(0));
    assert_eq!(cpu.A, 0x80);
    assert_eq!(cpu.N, 1);
    assert_eq!(cpu.Z, 0);
}

#[test]
fn unknown_opcode_halts_without_changes() {
    let (mut cpu, mut mem) = fresh();
    mem.data[0xFFFC] = 0x02;
    mem.data[0xFFFD] = 0x77;
    let before = cpu;
    assert_eq!(cpu.execute(10, &mut mem), Err(ExecError::UnknownOpcode { opcode: 0x02, pc: 0xFFFC }));
    assert_eq!(cpu, before);
    assert_eq!(mem.data[0xFFFC], 0x02);
    assert_eq!(cpu.step(&mut mem), Err(ExecError::UnknownOpcode { opcode: 0x02, pc: 0xFFFC }));
    assert_eq!(cpu, before);
}

#[test]
fn unknown_opcode_after_a_load() {
    let (mut cpu, mut mem) = fresh();
    mem.data[0xFFFC] = CPU::INS_LDA_IM;
    mem.data[0xFFFD] = 0x05;
    mem.data[0xFFFE] = 0xFF;
    assert_eq!(cpu.execute(10, &mut mem), Err(ExecError::UnknownOpcode { opcode: 0xFF, pc: 0xFFFE }));
    assert_eq!(cpu.A, 0x05);
    assert_eq!(cpu.PC, 0xFFFE);
}

#[test]
fn instruction_overdraws_budget() {
    let (mut cpu, mut mem) = fresh();
    mem.data[0xFFFC] = CPU::INS_JSR;
    mem.data[0xFFFD] = 0x00;
    mem.data[0xFFFE] = 0x20;
    assert_eq!(cpu.execute(1, &mut mem), Ok(-5));
    assert_eq!(cpu.PC, 0x2000);
}

#[test]
fn zero_budget_runs_nothing() {
    let (mut cpu, mut mem) = fresh();
    mem.data[0xFFFC] = 0x02;
    assert_eq!(cpu.execute(0, &mut mem), Ok(0));
    assert_eq!(cpu.PC, 0xFFFC);
}

#[test]
fn word_round_trip_including_wrap() {
    let mut mem: MEM = MEM::default();
    for &(addr, word) in &[(0x0000u16, 0x0000u16), (0x1234, 0xBEEF), (0xFFFF, 0xA55A), (0x7FFF, 0xFFFF)] {
        let mut cycles: i64 = 10;
        mem.write_word(&mut cycles, word, addr);
        assert_eq!(cycles, 8);
        assert_eq!(mem.read_word(&mut cycles, addr), word);
        assert_eq!(cycles, 6);
    }
    assert_eq!(mem.data[0xFFFF], 0x5A);
    assert_eq!(mem.data[0x0000], 0xA5);
}

#[test]
fn byte_access_and_initialise() {
    let mut mem: MEM = MEM::default();
    let mut cycles: i64 = 0;
    mem.write_byte(&mut cycles, 0xABCD, 0x42);
    assert_eq!(mem.read_byte(&mut cycles, 0xABCD), 0x42);
    assert_eq!(cycles, -2);
    mem.initialise();
    assert_eq!(mem.data[0xABCD], 0);
    assert_eq!(MEM::MAX_MEM, mem.data.len());
}

#[test]
fn decode_table() {
    assert_eq!(decode(0xA9), Some(Operation::LoadAccumulator(AddrMode::Immediate)));
    assert_eq!(decode(0xA5), Some(Operation::LoadAccumulator(AddrMode::ZeroPage)));
    assert_eq!(decode(0xB5), Some(Operation::LoadAccumulator(AddrMode::ZeroPageX)));
    assert_eq!(decode(0xAD), Some(Operation::LoadAccumulator(AddrMode::Absolute)));
    assert_eq!(decode(0xBD), Some(Operation::LoadAccumulator(AddrMode::AbsoluteX)));
    assert_eq!(decode(0xB9), Some(Operation::LoadAccumulator(AddrMode::AbsoluteY)));
    assert_eq!(decode(0x20), Some(Operation::JumpToSubroutine));
    assert_eq!(decode(0xEA), None);
}
