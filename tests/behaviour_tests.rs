use emu6502::cpu::CPU;
use emu6502::instructions::OPCODE::{
    ADC_I, AND_I, ASL_ACC, BIT_ZP, BMI, BNE, BPL, BVS, CMP_I, CPX_I, DEX, INC_ZP, INX, JMP_A,
    LDA_A, LDA_I, LDA_IX, LDA_IY, LDA_ZPX, NOP, STA_A, STA_ZP,
};
use emu6502::instructions::{DecodeError, EncodeError, Instruction, Operation, OPCODE};
use emu6502::memory::{Memory, PROGRAM_ROM_S};
use emu6502::register::Register;
use emu6502::semantics::{CpuState, StepError};

fn program(instructions: &[(OPCODE, Vec<u8>)]) -> Memory {
    let mut mem = Memory::new();
    for (op, param) in instructions {
        mem.push_back_ins(Instruction::new(*op, param).unwrap());
    }
    mem
}

#[test]
fn load_immediate_advances_pc_and_cycles() {
    let mut cpu = CPU::new(0, 0, 0, 0);
    let mut mem = program(&[(LDA_I, vec![0x12])]);
    cpu.execute(&mut mem).unwrap();
    assert_eq!(cpu.a().value, 0x12);
    assert_eq!(cpu.program_counter(), PROGRAM_ROM_S + 2);
    assert_eq!(cpu.clock_cycles_elapsed(), 2);
    assert_eq!(cpu.ins().value, 0xA9);
}

#[test]
fn store_absolute_advances_pc_by_three() {
    let mut cpu = CPU::new(0x42, 0, 0, 0);
    let mut mem = program(&[(STA_A, vec![0x00, 0x30])]);
    cpu.execute(&mut mem).unwrap();
    assert_eq!(*mem.read_byte(&0x3000), 0x42);
    assert_eq!(cpu.program_counter(), 0x8003);
    assert_eq!(cpu.clock_cycles_elapsed(), 4);
}

#[test]
fn cycles_accumulate_over_steps() {
    let mut cpu = CPU::new(0, 0, 0, 0);
    let mut mem = program(&[
        (LDA_I, vec![0x01]),
        (STA_ZP, vec![0x10]),
        (INC_ZP, vec![0x10]),
        (LDA_IX, vec![0x10]),
    ]);
    for _ in 0..4 {
        cpu.execute(&mut mem).unwrap();
    }
    assert_eq!(cpu.clock_cycles_elapsed(), 2 + 3 + 5 + 6);
    assert_eq!(cpu.program_counter(), 0x8008);
}

#[test]
fn add_without_overflow_sets_flags() {
    let mut cpu = CPU::new(0x10, 0, 0, 0);
    let mut mem = program(&[(ADC_I, vec![0x20])]);
    cpu.execute(&mut mem).unwrap();
    assert_eq!(cpu.a().value, 0x30);
    assert!(!*cpu.c_flag());
    assert!(!*cpu.v_flag());
    assert!(!*cpu.n_flag());
    assert!(!*cpu.z_flag());
}

#[test]
fn add_with_signed_overflow_sets_flags() {
    let mut cpu = CPU::new(0x7F, 0, 0, 0);
    let mut mem = program(&[(ADC_I, vec![0x01])]);
    cpu.execute(&mut mem).unwrap();
    assert_eq!(cpu.a().value, 0x80);
    assert!(*cpu.n_flag());
    assert!(*cpu.v_flag());
    assert!(!*cpu.c_flag());
    assert!(!*cpu.z_flag());
}

#[test]
fn add_with_unsigned_carry_to_zero() {
    let mut cpu = CPU::new(0xFF, 0, 0, 0);
    let mut mem = program(&[(ADC_I, vec![0x01])]);
    cpu.execute(&mut mem).unwrap();
    assert_eq!(cpu.a().value, 0x00);
    assert!(*cpu.c_flag());
    assert!(*cpu.z_flag());
    assert!(!*cpu.v_flag());
    assert!(!*cpu.n_flag());
}

#[test]
fn add_of_two_negatives_overflows() {
    let mut cpu = CPU::new(0x80, 0, 0, 0);
    let mut mem = program(&[(ADC_I, vec![0x80])]);
    cpu.execute(&mut mem).unwrap();
    assert_eq!(cpu.a().value, 0x00);
    assert!(*cpu.c_flag());
    assert!(*cpu.v_flag());
    assert!(*cpu.z_flag());
}

#[test]
fn compare_flags_for_every_pair() {
    let mut mem = program(&[(CPX_I, vec![0x00])]);
    for r in 0..=255u8 {
        for m in 0..=255u8 {
            mem.write_byte(&(PROGRAM_ROM_S + 1), &m);
            let mut cpu = CPU::new(0, r, 0, 0);
            cpu.execute(&mut mem).unwrap();
            assert_eq!(*cpu.c_flag(), r >= m);
            assert_eq!(*cpu.z_flag(), r == m);
            assert_eq!(*cpu.n_flag(), r.wrapping_sub(m) >= 0x80);
        }
    }
}

#[test]
fn compare_below_clears_carry_and_zero() {
    let mut cpu = CPU::new(0x10, 0, 0, 0);
    let mut mem = program(&[(CMP_I, vec![0x11])]);
    cpu.execute(&mut mem).unwrap();
    assert!(!*cpu.c_flag());
    assert!(!*cpu.z_flag());
    assert!(*cpu.n_flag());
}

#[test]
fn zero_page_x_wraps_within_page_zero() {
    let mut cpu = CPU::new(0, 0xFF, 0, 0);
    let mut mem = program(&[(LDA_ZPX, vec![0x10])]);
    mem.write_byte(&0x000F, &0x5A);
    mem.write_byte(&0x010F, &0xA5);
    cpu.execute(&mut mem).unwrap();
    assert_eq!(cpu.a().value, 0x5A);
}

#[test]
fn indexed_indirect_pointer_wraps_within_page_zero() {
    let mut cpu = CPU::new(0, 0x01, 0, 0);
    let mut mem = program(&[(LDA_IX, vec![0xFE])]);
    mem.write_byte(&0x00FF, &0x34);
    mem.write_byte(&0x0000, &0x12);
    mem.write_byte(&0x1234, &0x77);
    cpu.execute(&mut mem).unwrap();
    assert_eq!(cpu.a().value, 0x77);
}

#[test]
fn indirect_indexed_pointer_wraps_within_page_zero() {
    let mut cpu = CPU::new(0, 0, 0x04, 0);
    let mut mem = program(&[(LDA_IY, vec![0xFF])]);
    mem.write_byte(&0x00FF, &0x30);
    mem.write_byte(&0x0000, &0x12);
    mem.write_byte(&0x1234, &0x66);
    cpu.execute(&mut mem).unwrap();
    assert_eq!(cpu.a().value, 0x66);
}

#[test]
fn absolute_jump_sets_pc_exactly() {
    let mut cpu = CPU::new(0, 0, 0, 0);
    let mut mem = program(&[(JMP_A, vec![0x05, 0x80])]);
    cpu.execute(&mut mem).unwrap();
    assert_eq!(cpu.program_counter(), 0x8005);
    assert_eq!(cpu.clock_cycles_elapsed(), 3);
}

#[test]
fn backward_branch_loops() {
    let mut cpu = CPU::new(0, 3, 0, 0);
    // DEX at 0x8000, CPX #0 at 0x8001, BNE at 0x8003 back by five bytes to the DEX
    let mut mem = program(&[(DEX, vec![]), (CPX_I, vec![0x00]), (BNE, vec![0xFB])]);
    let mut steps = 0;
    while cpu.program_counter() != 0x8005 && steps < 100 {
        cpu.execute(&mut mem).unwrap();
        steps += 1;
    }
    assert_eq!(cpu.x().value, 0);
    assert_eq!(steps, 9);
}

#[test]
fn bpl_taken_when_negative_clear() {
    let mut cpu = CPU::new(0x10, 0x20, 0, 0);
    let mut mem = program(&[(CMP_I, vec![0x09]), (BPL, vec![0x01]), (INX, vec![]), (DEX, vec![])]);
    for _ in 0..3 {
        cpu.execute(&mut mem).unwrap();
    }
    assert_eq!(cpu.x().value, 0x1F);
}

#[test]
fn bmi_taken_when_negative_set() {
    let mut cpu = CPU::new(0x10, 0x20, 0, 0);
    let mut mem = program(&[(CMP_I, vec![0x11]), (BMI, vec![0x01]), (INX, vec![]), (DEX, vec![])]);
    for _ in 0..3 {
        cpu.execute(&mut mem).unwrap();
    }
    assert_eq!(cpu.x().value, 0x1F);
}

#[test]
fn bvs_taken_after_signed_overflow() {
    let mut cpu = CPU::new(0x7F, 0x20, 0, 0);
    let mut mem = program(&[(ADC_I, vec![0x01]), (BVS, vec![0x01]), (INX, vec![]), (DEX, vec![])]);
    for _ in 0..3 {
        cpu.execute(&mut mem).unwrap();
    }
    assert_eq!(cpu.x().value, 0x1F);
}

#[test]
fn branch_not_taken_moves_past_itself() {
    let mut cpu = CPU::new(0, 0, 0, 0);
    let mut mem = program(&[(BMI, vec![0x40])]);
    cpu.execute(&mut mem).unwrap();
    assert_eq!(cpu.program_counter(), 0x8002);
    assert_eq!(cpu.clock_cycles_elapsed(), 2);
}

#[test]
fn shift_accumulator_sets_carry_and_zero() {
    let mut cpu = CPU::new(0x80, 0, 0, 0);
    let mut mem = program(&[(ASL_ACC, vec![])]);
    cpu.execute(&mut mem).unwrap();
    assert_eq!(cpu.a().value, 0x00);
    assert!(*cpu.c_flag());
    assert!(*cpu.z_flag());
    assert!(!*cpu.n_flag());
    assert_eq!(cpu.program_counter(), 0x8001);
}

#[test]
fn and_sets_zero_and_negative() {
    let mut cpu = CPU::new(0xF0, 0, 0, 0);
    let mut mem = program(&[(AND_I, vec![0x0F])]);
    cpu.execute(&mut mem).unwrap();
    assert_eq!(cpu.a().value, 0x00);
    assert!(*cpu.z_flag());
    assert!(!*cpu.n_flag());

    let mut cpu = CPU::new(0xF0, 0, 0, 0);
    let mut mem = program(&[(AND_I, vec![0x80])]);
    cpu.execute(&mut mem).unwrap();
    assert_eq!(cpu.a().value, 0x80);
    assert!(!*cpu.z_flag());
    assert!(*cpu.n_flag());
}

#[test]
fn bit_test_reads_bits_six_and_seven() {
    let mut cpu = CPU::new(0x01, 0, 0, 0);
    let mut mem = program(&[(BIT_ZP, vec![0x20])]);
    mem.write_byte(&0x0020, &0x40);
    cpu.execute(&mut mem).unwrap();
    assert!(*cpu.z_flag());
    assert!(!*cpu.n_flag());
    assert!(*cpu.v_flag());
    assert_eq!(cpu.a().value, 0x01);
}

#[test]
fn register_and_memory_counters_wrap() {
    let mut cpu = CPU::new(0, 0xFF, 0, 0);
    let mut mem = program(&[(INX, vec![]), (DEX, vec![]), (INC_ZP, vec![0x30])]);
    mem.write_byte(&0x0030, &0xFF);
    cpu.execute(&mut mem).unwrap();
    assert_eq!(cpu.x().value, 0x00);
    cpu.execute(&mut mem).unwrap();
    assert_eq!(cpu.x().value, 0xFF);
    cpu.execute(&mut mem).unwrap();
    assert_eq!(*mem.read_byte(&0x0030), 0x00);
}

#[test]
fn unknown_opcode_is_an_error_and_only_records_the_byte() {
    let mut cpu = CPU::new(1, 2, 3, 4);
    let mut mem = Memory::new();
    mem.write_byte(&PROGRAM_ROM_S, &0x02);
    let before = cpu.state();
    assert_eq!(cpu.execute(&mut mem), Err(StepError::UnknownOpcode { opcode: 0x02 }));
    let after = cpu.state();
    assert_eq!(after.ins, 0x02);
    assert_eq!(CpuState { ins: before.ins, ..after }, before);
    assert_eq!(*mem.read_byte(&PROGRAM_ROM_S), 0x02);
}

#[test]
fn unemulated_opcode_is_an_error() {
    let mut cpu = CPU::new(0, 0, 0, 0);
    let mut mem = program(&[(NOP, vec![])]);
    assert_eq!(cpu.execute(&mut mem), Err(StepError::Unimplemented { instruction: NOP }));
    assert_eq!(cpu.program_counter(), PROGRAM_ROM_S);
    assert_eq!(cpu.clock_cycles_elapsed(), 0);
}

#[test]
fn operand_count_is_checked() {
    assert_eq!(
        Instruction::new(LDA_I, &vec![]).unwrap_err(),
        EncodeError::OperandCountMismatch { expected: 1, got: 0 }
    );
    assert_eq!(
        Instruction::new(INX, &vec![0x01]).unwrap_err(),
        EncodeError::OperandCountMismatch { expected: 0, got: 1 }
    );
    assert_eq!(
        Instruction::new(LDA_A, &vec![0x01, 0x02, 0x03]).unwrap_err(),
        EncodeError::OperandCountMismatch { expected: 2, got: 3 }
    );
}

#[test]
fn encoded_instruction_layout() {
    let ins = Instruction::new(LDA_A, &vec![0x10, 0x80]).unwrap();
    assert_eq!(*ins.opc(), LDA_A);
    assert_eq!(*ins.size(), 3);
    assert_eq!(*ins.cycles(), 4);
    assert_eq!(*ins.param(), vec![0x10, 0x80]);
    assert_eq!(ins.convert_to_mem_layout(), vec![0xAD, 0x10, 0x80]);
}

#[test]
fn decode_known_and_unknown_bytes() {
    let ins = Instruction::decode(0xB1).unwrap();
    assert_eq!(*ins.opc(), LDA_IY);
    assert_eq!(*ins.size(), 2);
    assert_eq!(*ins.cycles(), 5);
    assert!(ins.param().is_empty());
    assert_eq!(Instruction::decode(0xFF).unwrap_err(), DecodeError::UnknownOpcode { opcode: 0xFF });
}

#[test]
fn opcode_bytes_round_trip() {
    for b in 0..=255u8 {
        if let Some(op) = OPCODE::from_code(b) {
            assert_eq!(op.code(), b);
        }
    }
    assert_eq!(OPCODE::from_code(0xA9), Some(LDA_I));
    assert_eq!(LDA_I.code(), 0xA9);
    assert_eq!(BPL.info().operation, Operation::Bpl);
    assert_eq!(OPCODE::from_code(0x02), None);
}

#[test]
fn instructions_are_placed_one_after_another() {
    let mem = program(&[(LDA_I, vec![0x12]), (STA_A, vec![0x34, 0x12]), (INX, vec![])]);
    let bytes: Vec<u8> = (0..6u16).map(|i| *mem.read_byte(&(PROGRAM_ROM_S + i))).collect();
    assert_eq!(bytes, vec![0xA9, 0x12, 0x8D, 0x34, 0x12, 0xE8]);
}

#[test]
fn new_cpu_state() {
    let cpu = CPU::new(1, 2, 3, 4);
    let s = cpu.state();
    assert_eq!((s.a, s.x, s.y, s.ins), (1, 2, 3, 4));
    assert!(!s.n && !s.v && !s.b && !s.d && !s.i && !s.z && !s.c);
    assert!(!*cpu.b_flag() && !*cpu.d_flag() && !*cpu.i_flag());
    assert_eq!(s.pc, PROGRAM_ROM_S);
    assert_eq!(s.cycles, 0);
    assert_eq!(Register::new(7u16).value, 7);
}
