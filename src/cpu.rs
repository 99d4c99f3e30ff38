use vstd::prelude::*;

use crate::instructions::{
    has_address, instruction_cycles, instruction_size, lemma_opcode_table, mode_fits,
    opcode_info, AddressingMode, Instruction, Operation, MAX_CYCLES,
};
use crate::memory::{Memory, PROGRAM_ROM_S, ZP_S};
use crate::register::Register;
use crate::semantics::{
    absolute_address, add_with_carry, apply_operation, bit_test, branch_taken, byte_at, compare,
    effective_address, fetched_opcode, is_branch, is_implemented, is_negative, next_pc,
    shift_left_flags, step, zero_page_word, CpuState, StepError,
};

verus! {

/// The processor: accumulator, index registers, the last fetched opcode
/// byte, seven status flags, program counter and elapsed cycles.
pub struct CPU {
    a: Register<u8>,
    y: Register<u8>,
    x: Register<u8>,
    ins: Register<u8>,
    n_flag: bool,
    v_flag: bool,
    b_flag: bool,
    d_flag: bool,
    i_flag: bool,
    z_flag: bool,
    c_flag: bool,
    program_counter: Register<u16>,
    clock_cycles_elapsed: u64,
}

impl View for CPU {
    type V = CpuState;

    closed spec fn view(&self) -> CpuState {
        CpuState {
            a: self.a.value,
            x: self.x.value,
            y: self.y.value,
            ins: self.ins.value,
            n: self.n_flag,
            v: self.v_flag,
            b: self.b_flag,
            d: self.d_flag,
            i: self.i_flag,
            z: self.z_flag,
            c: self.c_flag,
            pc: self.program_counter.value,
            cycles: self.clock_cycles_elapsed,
        }
    }
}

/// Bits 7 and 6 of a byte in arithmetic terms.
proof fn lemma_sign_bit(v: u8)
    ensures
        (v & 0x80 != 0) == (v >= 128),
        (v & 0x40 != 0) == ((v / 64) % 2 == 1),
{
    assert((v & 0x80 != 0) == (v >= 128)) by (bit_vector);
    assert((v & 0x40 != 0) == ((v / 64) % 2 == 1)) by (bit_vector);
}

/// Shifting a byte left by one doubles it modulo 256.
proof fn lemma_shift_left(v: u8)
    ensures
        v << 1u8 == ((2 * v) % 256) as u8,
{
    assert(v << 1u8 == ((2 * v) % 256) as u8) by (bit_vector);
}

/// Reducing modulo `m` a value below `2 * m` subtracts `m` at most once.
proof fn lemma_wrap_once(x: int, m: int)
    requires
        0 <= x < 2 * m,
    ensures
        x % m == if x < m {
            x
        } else {
            x - m
        },
{
    if x < m {
        vstd::arithmetic::div_mod::lemma_small_mod(x as nat, m as nat);
    } else {
        vstd::arithmetic::div_mod::lemma_small_mod((x - m) as nat, m as nat);
        vstd::arithmetic::div_mod::lemma_mod_sub_multiples_vanish(x, m);
    }
}

/// Two's-complement overflow of `p + m = r` read off the sign bits.
proof fn lemma_overflow_bits(p: u8, m: u8, r: u8)
    ensures
        ((p ^ r) & (m ^ r) & 0x80 != 0) == ((p >= 128) == (m >= 128) && (r >= 128) != (p
            >= 128)),
{
    assert(((p ^ r) & (m ^ r) & 0x80 != 0) == ((p & 0x80 != 0) == (m & 0x80 != 0) && (r & 0x80
        != 0) != (p & 0x80 != 0))) by (bit_vector);
    lemma_sign_bit(p);
    lemma_sign_bit(m);
    lemma_sign_bit(r);
}

/// The little-endian word whose low byte is at `lo` and high byte at `hi`.
fn read_word(memory: &Memory, lo: u16, hi: u16) -> (r: u16)
    requires
        memory@.len() == 0x10000,
    ensures
        r == byte_at(memory@, lo as int) + 256 * byte_at(memory@, hi as int),
{
    proof {
        reveal(byte_at);
    }
    let low = *memory.read_byte(&lo);
    let high = *memory.read_byte(&hi);
    low as u16 + high as u16 * 256
}

/// The word in page zero at `slot` and the slot after it.
fn read_zero_page_word(memory: &Memory, slot: u8) -> (r: u16)
    requires
        memory@.len() == 0x10000,
    ensures
        r == zero_page_word(memory@, slot as int),
{
    read_word(memory, slot as u16, slot.wrapping_add(1) as u16)
}

impl CPU {
    fn inc_clock_cycles_via_ins(&mut self, ins: &Instruction)
        requires
            old(self)@.cycles + instruction_cycles(ins.spec_opc()) <= u64::MAX,
        ensures
            final(self)@ == (CpuState {
                cycles: (old(self)@.cycles + instruction_cycles(ins.spec_opc())) as u64,
                ..old(self)@
            }),
    {
        self.clock_cycles_elapsed += *ins.cycles() as u64;
    }

    fn cmp_op(&mut self, reg_value: u8, value: u8)
        ensures
            final(self)@ == compare(old(self)@, reg_value, value),
    {
        let difference = reg_value.wrapping_sub(value);
        proof {
            lemma_sign_bit(difference);
        }
        self.c_flag = reg_value >= value;
        self.z_flag = reg_value == value;
        self.n_flag = difference & 0x80 != 0;
    }

    /// Sets the flags of an ADC that added `value` to `prev_value`, the sum
    /// already in the accumulator.
    fn adc_calc_flags(&mut self, prev_value: u8, value: u8)
        requires
            old(self).a.value == (prev_value + value) % 256,
        ensures
            final(self)@ == add_with_carry(CpuState { a: prev_value, ..old(self)@ }, value),
    {
        let result = self.a.value;
        proof {
            lemma_sign_bit(result);
            lemma_overflow_bits(prev_value, value, result);
        }
        self.c_flag = result < prev_value;
        self.z_flag = result == 0;
        self.n_flag = result & 0x80 != 0;
        self.v_flag = (prev_value ^ result) & (value ^ result) & 0x80 != 0;
    }

    fn and_calc_flags(&mut self)
        ensures
            final(self)@ == (CpuState {
                z: old(self)@.a == 0,
                n: is_negative(old(self)@.a),
                ..old(self)@
            }),
    {
        proof {
            lemma_sign_bit(self.a.value);
        }
        self.z_flag = self.a.value == 0;
        self.n_flag = self.a.value & 0x80 != 0;
    }

    /// Sets the flags of shifting `prev_value` left by one.
    fn asl_calc_flags(&mut self, prev_value: u8)
        ensures
            final(self)@ == shift_left_flags(old(self)@, prev_value),
    {
        let result = prev_value << 1u8;
        proof {
            lemma_shift_left(prev_value);
            lemma_sign_bit(prev_value);
            lemma_sign_bit(result);
        }
        self.c_flag = prev_value & 0x80 != 0;
        self.z_flag = result == 0;
        self.n_flag = result & 0x80 != 0;
    }

    fn bit_calc_flags(&mut self, value: u8)
        ensures
            final(self)@ == bit_test(old(self)@, value),
    {
        proof {
            lemma_sign_bit(value);
        }
        self.z_flag = self.a.value & value == 0;
        self.n_flag = value & 0x80 != 0;
        self.v_flag = value & 0x40 != 0;
    }

    /// The byte `offset` bytes after the program counter.
    fn operand_byte(&self, memory: &Memory, offset: u16) -> (r: u8)
        requires
            memory@.len() == 0x10000,
        ensures
            r == byte_at(memory@, self@.pc + offset),
    {
        proof {
            reveal(byte_at);
        }
        *memory.read_byte(&self.program_counter.value.wrapping_add(offset))
    }

    /// The absolute address in the two bytes after the opcode.
    fn absolute(&self, memory: &Memory) -> (r: u16)
        requires
            memory@.len() == 0x10000,
        ensures
            r == absolute_address(self@, memory@),
    {
        let lo = self.operand_byte(memory, 1);
        let hi = self.operand_byte(memory, 2);
        lo as u16 + hi as u16 * 256
    }

    /// The effective address of the instruction at the program counter.
    fn get_addr(&self, memory: &Memory, mode: AddressingMode) -> (addr: u16)
        requires
            has_address(mode),
            memory@.len() == 0x10000,
        ensures
            addr == effective_address(self@, memory@, mode),
    {
        proof {
            reveal(effective_address);
        }
        match mode {
            AddressingMode::Immediate | AddressingMode::Relative => {
                let pc = self.program_counter.value;
                proof {
                    lemma_wrap_once(pc + 1, 0x10000);
                }
                pc.wrapping_add(1)
            },
            AddressingMode::ZeroPage => ZP_S + self.operand_byte(memory, 1) as u16,
            AddressingMode::ZeroPageX => {
                ZP_S + self.operand_byte(memory, 1).wrapping_add(self.x.value) as u16
            },
            AddressingMode::ZeroPageY => {
                ZP_S + self.operand_byte(memory, 1).wrapping_add(self.y.value) as u16
            },
            AddressingMode::Absolute => self.absolute(memory),
            AddressingMode::AbsoluteX => self.absolute(memory).wrapping_add(self.x.value as u16),
            AddressingMode::AbsoluteY => self.absolute(memory).wrapping_add(self.y.value as u16),
            AddressingMode::Indirect => {
                let pointer = self.absolute(memory);
                proof {
                    reveal(byte_at);
                    lemma_wrap_once(pointer + 1, 0x10000);
                }
                read_word(memory, pointer, pointer.wrapping_add(1))
            },
            AddressingMode::IndexedIndirect => {
                let slot = self.operand_byte(memory, 1).wrapping_add(self.x.value);
                read_zero_page_word(memory, slot)
            },
            AddressingMode::IndirectIndexed => {
                let pointer = read_zero_page_word(memory, self.operand_byte(memory, 1));
                pointer.wrapping_add(self.y.value as u16)
            },
            AddressingMode::Implied | AddressingMode::Accumulator => 0,
        }
    }

    /// Whether the branch `op` is taken with the current flags.
    fn branch_condition(&self, op: Operation) -> (taken: bool)
        ensures
            taken == branch_taken(self@, op),
    {
        match op {
            Operation::Bpl => !self.n_flag,
            Operation::Bmi => self.n_flag,
            Operation::Bvc => !self.v_flag,
            Operation::Bvs => self.v_flag,
            Operation::Bcc => !self.c_flag,
            Operation::Bcs => self.c_flag,
            Operation::Bne => !self.z_flag,
            Operation::Beq => self.z_flag,
            _ => false,
        }
    }

    /// Where the program counter goes after the instruction at it.
    fn next_program_counter(&self, memory: &Memory, op: Operation, mode: AddressingMode) -> (r:
        u16)
        requires
            mode_fits(op, mode),
            memory@.len() == 0x10000,
        ensures
            r == next_pc(self@, memory@, op, mode),
    {
        let after = self.program_counter.value.wrapping_add(mode.size());
        match op {
            Operation::Jmp => self.get_addr(memory, mode),
            Operation::Bpl
            | Operation::Bmi
            | Operation::Bvc
            | Operation::Bvs
            | Operation::Bcc
            | Operation::Bcs
            | Operation::Bne
            | Operation::Beq => {
                if self.branch_condition(op) {
                    let offset = self.operand_byte(memory, 1);
                    if offset < 128 {
                        after.wrapping_add(offset as u16)
                    } else {
                        after.wrapping_sub(256 - offset as u16)
                    }
                } else {
                    after
                }
            },
            _ => after,
        }
    }

    /// Loads and stores.
    fn load_store(&mut self, memory: &mut Memory, op: Operation, mode: AddressingMode)
        requires
            op == Operation::Lda || op == Operation::Ldx || op == Operation::Ldy || op
                == Operation::Sta || op == Operation::Stx || op == Operation::Sty,
            has_address(mode),
            old(memory)@.len() == 0x10000,
        ensures
            (final(self)@, final(memory)@) == apply_operation(old(self)@, old(memory)@, op, mode),
            final(memory).load_cursor() == old(memory).load_cursor(),
    {
        let addr = self.get_addr(memory, mode);
        match op {
            Operation::Lda => self.a.value = *memory.read_byte(&addr),
            Operation::Ldx => self.x.value = *memory.read_byte(&addr),
            Operation::Ldy => self.y.value = *memory.read_byte(&addr),
            Operation::Sta => memory.write_byte(&addr, &self.a.value),
            Operation::Stx => memory.write_byte(&addr, &self.x.value),
            _ => memory.write_byte(&addr, &self.y.value),
        }
    }

    /// Operations that read a byte and set flags: ADC, AND, BIT and compares.
    fn read_and_flag(&mut self, memory: &Memory, op: Operation, mode: AddressingMode)
        requires
            op == Operation::Adc || op == Operation::And || op == Operation::Bit || op
                == Operation::Cmp || op == Operation::Cpx || op == Operation::Cpy,
            has_address(mode),
            memory@.len() == 0x10000,
        ensures
            (final(self)@, memory@) == apply_operation(old(self)@, memory@, op, mode),
    {
        let addr = self.get_addr(memory, mode);
        let value = *memory.read_byte(&addr);
        match op {
            Operation::Adc => {
                let prev_value = self.a.value;
                proof {
                    lemma_wrap_once(prev_value + value, 256);
                }
                self.a.value = prev_value.wrapping_add(value);
                self.adc_calc_flags(prev_value, value);
            },
            Operation::And => {
                self.a.value = self.a.value & value;
                self.and_calc_flags();
            },
            Operation::Bit => self.bit_calc_flags(value),
            Operation::Cmp => self.cmp_op(self.a.value, value),
            Operation::Cpx => self.cmp_op(self.x.value, value),
            _ => self.cmp_op(self.y.value, value),
        }
    }

    /// Operations that rewrite a memory byte: ASL on memory, INC and DEC.
    fn read_modify_write(&mut self, memory: &mut Memory, op: Operation, mode: AddressingMode)
        requires
            op == Operation::Asl || op == Operation::Inc || op == Operation::Dec,
            has_address(mode),
            old(memory)@.len() == 0x10000,
        ensures
            (final(self)@, final(memory)@) == apply_operation(old(self)@, old(memory)@, op, mode),
            final(memory).load_cursor() == old(memory).load_cursor(),
    {
        let addr = self.get_addr(memory, mode);
        let value = *memory.read_byte(&addr);
        proof {
            lemma_wrap_once(value + 1, 256);
            lemma_wrap_once(value - 1 + 256, 256);
            vstd::arithmetic::div_mod::lemma_mod_add_multiples_vanish(value - 1, 256);
            lemma_shift_left(value);
        }
        match op {
            Operation::Asl => {
                memory.write_byte(&addr, &(value << 1u8));
                self.asl_calc_flags(value);
            },
            Operation::Inc => memory.write_byte(&addr, &value.wrapping_add(1)),
            _ => memory.write_byte(&addr, &value.wrapping_sub(1)),
        }
    }

    /// Carries out the operation of the instruction at the program counter
    /// on registers, flags and memory.
    fn execute_operation(&mut self, memory: &mut Memory, op: Operation, mode: AddressingMode)
        requires
            is_implemented(op),
            mode_fits(op, mode),
            old(memory)@.len() == 0x10000,
        ensures
            (final(self)@, final(memory)@) == apply_operation(old(self)@, old(memory)@, op, mode),
            final(memory).load_cursor() == old(memory).load_cursor(),
    {
        let x = self.x.value;
        let y = self.y.value;
        proof {
            lemma_wrap_once(x + 1, 256);
            lemma_wrap_once(x - 1 + 256, 256);
            vstd::arithmetic::div_mod::lemma_mod_add_multiples_vanish(x - 1, 256);
            lemma_wrap_once(y + 1, 256);
            lemma_wrap_once(y - 1 + 256, 256);
            vstd::arithmetic::div_mod::lemma_mod_add_multiples_vanish(y - 1, 256);
        }
        match op {
            Operation::Lda
            | Operation::Ldx
            | Operation::Ldy
            | Operation::Sta
            | Operation::Stx
            | Operation::Sty => self.load_store(memory, op, mode),
            Operation::Adc
            | Operation::And
            | Operation::Bit
            | Operation::Cmp
            | Operation::Cpx
            | Operation::Cpy => self.read_and_flag(memory, op, mode),
            Operation::Asl => {
                if mode == AddressingMode::Accumulator {
                    let prev_value = self.a.value;
                    proof {
                        lemma_shift_left(prev_value);
                    }
                    self.a.value = prev_value << 1u8;
                    self.asl_calc_flags(prev_value);
                } else {
                    self.read_modify_write(memory, op, mode);
                }
            },
            Operation::Inc | Operation::Dec => self.read_modify_write(memory, op, mode),
            Operation::Inx => self.x.value = x.wrapping_add(1),
            Operation::Dex => self.x.value = x.wrapping_sub(1),
            Operation::Iny => self.y.value = y.wrapping_add(1),
            Operation::Dey => self.y.value = y.wrapping_sub(1),
            // branches and jumps only move the program counter
            _ => {},
        }
    }
}


impl CPU {
    /// A processor with the given register values, every flag clear, the
    /// program counter at the start of ROM and no cycles elapsed.
    pub fn new(value_a: u8, value_x: u8, value_y: u8, ins: u8) -> (cpu: CPU)
        ensures
            cpu@ == (CpuState {
                a: value_a,
                x: value_x,
                y: value_y,
                ins,
                n: false,
                v: false,
                b: false,
                d: false,
                i: false,
                z: false,
                c: false,
                pc: PROGRAM_ROM_S,
                cycles: 0,
            }),
    {
        CPU {
            a: Register::new(value_a),
            x: Register::new(value_x),
            y: Register::new(value_y),
            ins: Register::new(ins),
            n_flag: false,
            v_flag: false,
            b_flag: false,
            d_flag: false,
            i_flag: false,
            z_flag: false,
            c_flag: false,
            program_counter: Register::new(PROGRAM_ROM_S),
            clock_cycles_elapsed: 0,
        }
    }

    /// Executes the instruction at the program counter.
    ///
    /// Fails when the byte there is not in the opcode table or its operation
    /// is not emulated; then only `ins` changes, to the fetched byte, and
    /// memory is left as it was. Otherwise the new state is
    /// `step` of the old one: in particular the cycle counter grows by the
    /// instruction's base cost, and an instruction that is neither a jump nor
    /// a branch moves the program counter just past itself.
    pub fn execute(&mut self, memory: &mut Memory) -> (r: Result<(), StepError>)
        requires
            old(self)@.cycles + MAX_CYCLES <= u64::MAX,
        ensures
            match step(old(self)@, old(memory)@) {
                Ok(next) => r is Ok && final(self)@ == next.0 && final(memory)@ == next.1,
                Err(e) => r == Err::<(), StepError>(e) && final(self)@ == (CpuState {
                    ins: old(memory)@[old(self)@.pc as int],
                    ..old(self)@
                }) && final(memory)@ == old(memory)@,
            },
            r is Ok ==> {
                let op = fetched_opcode(old(self)@, old(memory)@)->Some_0;
                let operation = opcode_info(op).operation;
                &&& final(self)@.cycles == old(self)@.cycles + instruction_cycles(op)
                &&& (!is_branch(operation) && operation != Operation::Jmp) ==> final(self)@.pc == (
                old(self)@.pc + instruction_size(op)) % 0x10000
            },
            final(memory).load_cursor() == old(memory).load_cursor(),
    {
        proof {
            memory.lemma_spans_address_space();
        }
        let opcode_addr = self.program_counter.value;
        let opcode = *memory.read_byte(&opcode_addr);
        let instruction = match Instruction::decode(opcode) {
            Ok(instruction) => instruction,
            Err(_) => {
                self.ins.value = opcode;
                return Err(StepError::UnknownOpcode { opcode });
            },
        };
        let opc = *instruction.opc();
        let info = opc.info();
        proof {
            lemma_opcode_table(opc);
        }
        if !implemented(info.operation) {
            self.ins.value = opcode;
            return Err(StepError::Unimplemented { instruction: opc });
        }
        let next = self.next_program_counter(memory, info.operation, info.mode);
        self.execute_operation(memory, info.operation, info.mode);
        self.ins.value = opcode;
        self.program_counter.value = next;
        self.inc_clock_cycles_via_ins(&instruction);
        Ok(())
    }

    /// A snapshot of registers, flags, program counter and cycle counter.
    pub fn state(&self) -> (r: CpuState)
        ensures
            r == self@,
    {
        CpuState {
            a: self.a.value,
            x: self.x.value,
            y: self.y.value,
            ins: self.ins.value,
            n: self.n_flag,
            v: self.v_flag,
            b: self.b_flag,
            d: self.d_flag,
            i: self.i_flag,
            z: self.z_flag,
            c: self.c_flag,
            pc: self.program_counter.value,
            cycles: self.clock_cycles_elapsed,
        }
    }

    pub fn a(&self) -> (r: &Register<u8>)
        ensures
            r.value == self@.a,
    {
        &self.a
    }

    pub fn x(&self) -> (r: &Register<u8>)
        ensures
            r.value == self@.x,
    {
        &self.x
    }

    pub fn y(&self) -> (r: &Register<u8>)
        ensures
            r.value == self@.y,
    {
        &self.y
    }

    /// The most recently executed opcode byte.
    pub fn ins(&self) -> (r: &Register<u8>)
        ensures
            r.value == self@.ins,
    {
        &self.ins
    }

    pub fn n_flag(&self) -> (r: &bool)
        ensures
            *r == self@.n,
    {
        &self.n_flag
    }

    pub fn c_flag(&self) -> (r: &bool)
        ensures
            *r == self@.c,
    {
        &self.c_flag
    }

    pub fn i_flag(&self) -> (r: &bool)
        ensures
            *r == self@.i,
    {
        &self.i_flag
    }

    pub fn z_flag(&self) -> (r: &bool)
        ensures
            *r == self@.z,
    {
        &self.z_flag
    }

    pub fn d_flag(&self) -> (r: &bool)
        ensures
            *r == self@.d,
    {
        &self.d_flag
    }

    pub fn v_flag(&self) -> (r: &bool)
        ensures
            *r == self@.v,
    {
        &self.v_flag
    }

    pub fn b_flag(&self) -> (r: &bool)
        ensures
            *r == self@.b,
    {
        &self.b_flag
    }

    pub fn program_counter(&self) -> (r: u16)
        ensures
            r == self@.pc,
    {
        self.program_counter.value
    }

    pub fn clock_cycles_elapsed(&self) -> (r: u64)
        ensures
            r == self@.cycles,
    {
        self.clock_cycles_elapsed
    }
}

/// Whether a step executes operation `op`.
fn implemented(op: Operation) -> (r: bool)
    ensures
        r == is_implemented(op),
{
    match op {
        Operation::Lda
        | Operation::Ldx
        | Operation::Ldy
        | Operation::Sta
        | Operation::Stx
        | Operation::Sty
        | Operation::Adc
        | Operation::And
        | Operation::Asl
        | Operation::Bit
        | Operation::Cmp
        | Operation::Cpx
        | Operation::Cpy
        | Operation::Inc
        | Operation::Dec
        | Operation::Inx
        | Operation::Dex
        | Operation::Iny
        | Operation::Dey
        | Operation::Jmp
        | Operation::Bpl
        | Operation::Bmi
        | Operation::Bvc
        | Operation::Bvs
        | Operation::Bcc
        | Operation::Bcs
        | Operation::Bne
        | Operation::Beq => true,
        _ => false,
    }
}

} // verus!
