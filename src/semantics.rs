use vstd::prelude::*;

use crate::instructions::{
    mode_size, opcode_for_byte, opcode_info, AddressingMode, Operation, OPCODE,
};
use crate::memory::{ZP_E, ZP_S};

verus! {

/// A snapshot of the processor: registers, the last fetched opcode byte,
/// status flags, program counter and elapsed cycles.
#[derive(Copy, Clone, Debug, PartialEq, Eq, Structural)]
pub struct CpuState {
    pub a: u8,
    pub x: u8,
    pub y: u8,
    pub ins: u8,
    /// Negative
    pub n: bool,
    /// Overflow
    pub v: bool,
    /// Break (no operation sets it)
    pub b: bool,
    /// Decimal (no operation sets it)
    pub d: bool,
    /// Interrupt disable (no operation sets it)
    pub i: bool,
    /// Zero
    pub z: bool,
    /// Carry
    pub c: bool,
    pub pc: u16,
    pub cycles: u64,
}

/// Why a step could not execute the instruction at the program counter.
#[derive(Copy, Clone, Debug, PartialEq, Eq, Structural)]
pub enum StepError {
    /// The byte at the program counter is not in the opcode table.
    UnknownOpcode { opcode: u8 },
    /// The opcode is in the table but its operation is not emulated.
    Unimplemented { instruction: OPCODE },
}

/// Bit 7 of a byte, its sign read as two's complement.
pub open spec fn is_negative(v: u8) -> bool {
    v >= 128
}

/// The byte at an address, which wraps around the 16-bit address space.
#[verifier::opaque]
pub open spec fn byte_at(mem: Seq<u8>, addr: int) -> u8 {
    mem[addr % 0x10000]
}

/// The little-endian word in page zero at `slot` and the slot after it,
/// wrapping within page zero.
pub open spec fn zero_page_word(mem: Seq<u8>, slot: int) -> int {
    byte_at(mem, slot) + 256 * byte_at(mem, (slot + 1) % 256)
}

/// The little-endian address in the two bytes after the opcode.
pub open spec fn absolute_address(s: CpuState, mem: Seq<u8>) -> int {
    byte_at(mem, s.pc + 1) + 256 * byte_at(mem, s.pc + 2)
}

/// The address that an instruction at `s.pc` in `mode` reads or writes.
/// Immediate and relative operands are the byte after the opcode; the
/// implied and accumulator modes have no address and give 0, which no
/// operation uses.
#[verifier::opaque]
pub open spec fn effective_address(s: CpuState, mem: Seq<u8>, mode: AddressingMode) -> int {
    match mode {
        AddressingMode::Immediate | AddressingMode::Relative => (s.pc + 1) % 0x10000,
        AddressingMode::ZeroPage => ZP_S + byte_at(mem, s.pc + 1),
        AddressingMode::ZeroPageX => ZP_S + (byte_at(mem, s.pc + 1) + s.x) % 256,
        AddressingMode::ZeroPageY => ZP_S + (byte_at(mem, s.pc + 1) + s.y) % 256,
        AddressingMode::Absolute => absolute_address(s, mem),
        AddressingMode::AbsoluteX => (absolute_address(s, mem) + s.x) % 0x10000,
        AddressingMode::AbsoluteY => (absolute_address(s, mem) + s.y) % 0x10000,
        AddressingMode::Indirect => {
            let pointer = absolute_address(s, mem);
            byte_at(mem, pointer) + 256 * byte_at(mem, pointer + 1)
        },
        AddressingMode::IndexedIndirect => zero_page_word(
            mem,
            (byte_at(mem, s.pc + 1) + s.x) % 256,
        ),
        AddressingMode::IndirectIndexed => (zero_page_word(mem, byte_at(mem, s.pc + 1) as int)
            + s.y) % 0x10000,
        AddressingMode::Implied | AddressingMode::Accumulator => 0,
    }
}

/// The value an operation works on: the accumulator in accumulator mode,
/// else the byte at the effective address.
pub open spec fn operand(s: CpuState, mem: Seq<u8>, mode: AddressingMode) -> u8 {
    if mode == AddressingMode::Accumulator {
        s.a
    } else {
        mem[effective_address(s, mem, mode)]
    }
}

/// ADC, binary mode: the accumulator becomes the sum modulo 256; carry is an
/// unsigned overflow, overflow a signed one (both addends of one sign, the
/// result of the other).
pub open spec fn add_with_carry(s: CpuState, m: u8) -> CpuState {
    let sum = s.a + m;
    let result = (sum % 256) as u8;
    CpuState {
        a: result,
        c: sum >= 256,
        z: result == 0,
        n: is_negative(result),
        v: is_negative(s.a) == is_negative(m) && is_negative(result) != is_negative(s.a),
        ..s
    }
}

/// AND into the accumulator.
pub open spec fn and_accumulator(s: CpuState, m: u8) -> CpuState {
    let result = s.a & m;
    CpuState { a: result, z: result == 0, n: is_negative(result), ..s }
}

/// A byte shifted left by one, the top bit dropped.
pub open spec fn shift_left(v: u8) -> u8 {
    ((2 * v) % 256) as u8
}

/// Flags after shifting `v` left: carry takes the bit shifted out.
pub open spec fn shift_left_flags(s: CpuState, v: u8) -> CpuState {
    let result = shift_left(v);
    CpuState { c: is_negative(v), z: result == 0, n: is_negative(result), ..s }
}

/// BIT: zero from `A & m`, negative and overflow from bits 7 and 6 of `m`.
pub open spec fn bit_test(s: CpuState, m: u8) -> CpuState {
    CpuState { z: s.a & m == 0, n: is_negative(m), v: (m / 64) % 2 == 1, ..s }
}

/// CMP, CPX, CPY: compare register value `r` with `m` as unsigned bytes.
pub open spec fn compare(s: CpuState, r: u8, m: u8) -> CpuState {
    CpuState { c: r >= m, z: r == m, n: is_negative(((r - m) % 256) as u8), ..s }
}

pub open spec fn increment(v: u8) -> u8 {
    ((v + 1) % 256) as u8
}

pub open spec fn decrement(v: u8) -> u8 {
    ((v - 1) % 256) as u8
}

/// A branch displacement read as a signed byte.
pub open spec fn signed_byte(b: u8) -> int {
    if b < 128 {
        b as int
    } else {
        b - 256
    }
}

/// The operations that a step executes.
pub open spec fn is_implemented(op: Operation) -> bool {
    match op {
        Operation::Lda
        | Operation::Ldx
        | Operation::Ldy
        | Operation::Sta
        | Operation::Stx
        | Operation::Sty
        | Operation::Adc
        | Operation::And
        | Operation::Asl
        | Operation::Bit
        | Operation::Cmp
        | Operation::Cpx
        | Operation::Cpy
        | Operation::Inc
        | Operation::Dec
        | Operation::Inx
        | Operation::Dex
        | Operation::Iny
        | Operation::Dey
        | Operation::Jmp => true,
        _ => is_branch(op),
    }
}

pub open spec fn is_branch(op: Operation) -> bool {
    match op {
        Operation::Bpl
        | Operation::Bmi
        | Operation::Bvc
        | Operation::Bvs
        | Operation::Bcc
        | Operation::Bcs
        | Operation::Bne
        | Operation::Beq => true,
        _ => false,
    }
}

/// Whether a branch is taken in state `s`.
pub open spec fn branch_taken(s: CpuState, op: Operation) -> bool {
    match op {
        Operation::Bpl => !s.n,
        Operation::Bmi => s.n,
        Operation::Bvc => !s.v,
        Operation::Bvs => s.v,
        Operation::Bcc => !s.c,
        Operation::Bcs => s.c,
        Operation::Bne => !s.z,
        Operation::Beq => s.z,
        _ => false,
    }
}

/// Registers, flags and memory after an operation, before the program
/// counter and the cycle counter move.
pub open spec fn apply_operation(
    s: CpuState,
    mem: Seq<u8>,
    op: Operation,
    mode: AddressingMode,
) -> (CpuState, Seq<u8>) {
    let addr = effective_address(s, mem, mode);
    let m = operand(s, mem, mode);
    match op {
        Operation::Lda => (CpuState { a: m, ..s }, mem),
        Operation::Ldx => (CpuState { x: m, ..s }, mem),
        Operation::Ldy => (CpuState { y: m, ..s }, mem),
        Operation::Sta => (s, mem.update(addr, s.a)),
        Operation::Stx => (s, mem.update(addr, s.x)),
        Operation::Sty => (s, mem.update(addr, s.y)),
        Operation::Adc => (add_with_carry(s, m), mem),
        Operation::And => (and_accumulator(s, m), mem),
        Operation::Asl => if mode == AddressingMode::Accumulator {
            (CpuState { a: shift_left(m), ..shift_left_flags(s, m) }, mem)
        } else {
            (shift_left_flags(s, m), mem.update(addr, shift_left(m)))
        },
        Operation::Bit => (bit_test(s, m), mem),
        Operation::Cmp => (compare(s, s.a, m), mem),
        Operation::Cpx => (compare(s, s.x, m), mem),
        Operation::Cpy => (compare(s, s.y, m), mem),
        Operation::Inc => (s, mem.update(addr, increment(m))),
        Operation::Dec => (s, mem.update(addr, decrement(m))),
        Operation::Inx => (CpuState { x: increment(s.x), ..s }, mem),
        Operation::Dex => (CpuState { x: decrement(s.x), ..s }, mem),
        Operation::Iny => (CpuState { y: increment(s.y), ..s }, mem),
        Operation::Dey => (CpuState { y: decrement(s.y), ..s }, mem),
        _ => (s, mem),
    }
}

/// The program counter after the instruction at `s.pc`: a jump goes to its
/// effective address; any other instruction moves past itself, and a taken
/// branch then adds its signed displacement.
pub open spec fn next_pc(s: CpuState, mem: Seq<u8>, op: Operation, mode: AddressingMode) -> u16 {
    let after = (s.pc + mode_size(mode)) % 0x10000;
    if op == Operation::Jmp {
        effective_address(s, mem, mode) as u16
    } else if is_branch(op) && branch_taken(s, op) {
        ((after + signed_byte(byte_at(mem, s.pc + 1))) % 0x10000) as u16
    } else {
        after as u16
    }
}

/// The opcode at the program counter, if the table has its byte.
pub open spec fn fetched_opcode(s: CpuState, mem: Seq<u8>) -> Option<OPCODE> {
    opcode_for_byte(mem[s.pc as int])
}

/// One instruction step: fetch and decode the byte at the program counter,
/// execute its operation, move the program counter, add the base cycle cost.
pub open spec fn step(s: CpuState, mem: Seq<u8>) -> Result<(CpuState, Seq<u8>), StepError> {
    let byte = mem[s.pc as int];
    match opcode_for_byte(byte) {
        None => Err(StepError::UnknownOpcode { opcode: byte }),
        Some(op) => {
            let info = opcode_info(op);
            if !is_implemented(info.operation) {
                Err(StepError::Unimplemented { instruction: op })
            } else {
                let done = apply_operation(s, mem, info.operation, info.mode);
                Ok(
                    (
                        CpuState {
                            ins: byte,
                            pc: next_pc(s, mem, info.operation, info.mode),
                            cycles: (s.cycles + info.cycles) as u64,
                            ..done.0
                        },
                        done.1,
                    ),
                )
            }
        },
    }
}

/// Zero-page indexed addressing wraps within page zero: the effective
/// address never reaches page one, whatever the operand byte and index.
pub proof fn lemma_zero_page_indexed_stays_in_page_zero(
    s: CpuState,
    mem: Seq<u8>,
    mode: AddressingMode,
)
    requires
        mode == AddressingMode::ZeroPageX || mode == AddressingMode::ZeroPageY,
    ensures
        ZP_S <= effective_address(s, mem, mode) <= ZP_E,
{
    reveal(effective_address);
}

/// The compare flags for every register value and operand: carry exactly
/// when the register is not below the operand, zero exactly when they are
/// equal; so below, equal and above are told apart by carry and zero.
pub proof fn lemma_compare_flags(s: CpuState, r: u8, m: u8)
    ensures
        compare(s, r, m).c == (r >= m),
        compare(s, r, m).z == (r == m),
        (r < m) == !compare(s, r, m).c,
        (r == m) == (compare(s, r, m).c && compare(s, r, m).z),
        (r > m) == (compare(s, r, m).c && !compare(s, r, m).z),
        compare(s, r, m).n == is_negative(((r - m) % 256) as u8),
{
}

} // verus!
