use vstd::prelude::*;

verus! {

/// Every opcode byte that the opcode table knows, named after its mnemonic
/// and addressing mode (`_I` immediate, `_ZP` zero page, `_ZPX`/`_ZPY` zero
/// page indexed, `_A` absolute, `_AX`/`_AY` absolute indexed, `_IX` indexed
/// indirect, `_IY` indirect indexed, `_ACC` accumulator).
#[allow(non_camel_case_types)]
#[derive(Copy, Clone, Debug, PartialEq, Eq, Structural)]
pub enum OPCODE {
    STA_ZP,
    STA_ZPX,
    STA_A,
    STA_AX,
    STA_AY,
    STA_IX,
    STA_IY,

    STX_ZP,
    STX_ZPY,
    STX_A,

    STY_ZP,
    STY_ZPX,
    STY_A,

    LDA_I,
    LDA_ZP,
    LDA_ZPX,
    LDA_A,
    LDA_AX,
    LDA_AY,
    LDA_IX,
    LDA_IY,

    LDX_I,
    LDX_A,
    LDX_AY,
    LDX_ZP,
    LDX_ZPY,

    LDY_I,
    LDY_A,
    LDY_AX,
    LDY_ZP,
    LDY_ZPX,

    CMP_I,
    CMP_ZP,
    CMP_ZPX,
    CMP_A,
    CMP_AX,
    CMP_AY,
    CMP_IX,
    CMP_IY,

    CPX_I,
    CPX_A,
    CPX_ZP,

    CPY_I,
    CPY_A,
    CPY_ZP,

    ADC_I,
    ADC_ZP,
    ADC_ZPX,
    ADC_A,
    ADC_AX,
    ADC_AY,
    ADC_IX,
    ADC_IY,

    AND_I,
    AND_ZP,
    AND_ZPX,
    AND_A,
    AND_AX,
    AND_AY,
    AND_IX,
    AND_IY,

    ASL_ACC,
    ASL_ZP,
    ASL_ZPX,
    ASL_A,
    ASL_AX,

    BIT_ZP,
    BIT_A,

    BPL,

    BMI,

    BVC,

    BVS,

    BCC,

    BCS,

    BNE,

    BEQ,

    BRK,

    DEC_ZP,
    DEC_ZPX,
    DEC_A,
    DEC_AX,

    EOR_I,
    EOR_ZP,
    EOR_ZPX,
    EOR_A,
    EOR_AX,
    EOR_AY,
    EOR_IX,
    EOR_IY,

    CLC,

    SEC,

    CLI,

    SEI,

    CLV,

    CLD,

    SED,

    INC_ZP,
    INC_ZPX,
    INC_A,
    INC_AX,

    JMP_A,
    JMP_I,

    JSR,

    LSR_ACC,
    LSR_ZP,
    LSR_ZPX,
    LSR_A,
    LSR_AX,

    NOP,

    ORA_I,
    ORA_ZP,
    ORA_ZPX,
    ORA_A,
    ORA_AX,
    ORA_AY,
    ORA_IX,
    ORA_IY,

    TAX,

    TXA,

    DEX,

    INX,

    TAY,

    TYA,

    DEY,

    INY,

    ROL_ACC,
    ROL_ZP,
    ROL_ZPX,
    ROL_A,
    ROL_AX,

    ROR_ACC,
    ROR_ZP,
    ROR_ZPX,
    ROR_A,
    ROR_AX,

    RTI,

    RTS,

    SBC_I,
    SBC_ZP,
    SBC_ZPX,
    SBC_A,
    SBC_AX,
    SBC_AY,
    SBC_IX,
    SBC_IY,

    TXS,

    TSX,

    PHA,

    PLA,

    PHP,

    PLP,
}

/// The operation family of an instruction, independent of its addressing mode.
#[derive(Copy, Clone, Debug, PartialEq, Eq, Structural)]
pub enum Operation {
    Adc,
    And,
    Asl,
    Bcc,
    Bcs,
    Beq,
    Bit,
    Bmi,
    Bne,
    Bpl,
    Brk,
    Bvc,
    Bvs,
    Clc,
    Cld,
    Cli,
    Clv,
    Cmp,
    Cpx,
    Cpy,
    Dec,
    Dex,
    Dey,
    Eor,
    Inc,
    Inx,
    Iny,
    Jmp,
    Jsr,
    Lda,
    Ldx,
    Ldy,
    Lsr,
    Nop,
    Ora,
    Pha,
    Php,
    Pla,
    Plp,
    Rol,
    Ror,
    Rti,
    Rts,
    Sbc,
    Sec,
    Sed,
    Sei,
    Sta,
    Stx,
    Sty,
    Tax,
    Tay,
    Tsx,
    Txa,
    Txs,
    Tya,
}

/// How an instruction finds its operand.
#[derive(Copy, Clone, Debug, PartialEq, Eq, Structural)]
pub enum AddressingMode {
    /// No operand.
    Implied,
    /// The operand is the accumulator.
    Accumulator,
    /// The operand is the byte after the opcode.
    Immediate,
    /// The byte after the opcode is a signed branch displacement.
    Relative,
    ZeroPage,
    ZeroPageX,
    ZeroPageY,
    Absolute,
    AbsoluteX,
    AbsoluteY,
    /// A little-endian pointer stored at an absolute address (jumps only).
    Indirect,
    /// `(operand,X)`: a pointer in page zero at `operand + X`.
    IndexedIndirect,
    /// `(operand),Y`: a pointer in page zero at `operand`, plus `Y`.
    IndirectIndexed,
}

/// One row of the opcode table: the opcode byte, what it does, how it
/// addresses its operand and its base cycle cost.
#[derive(Copy, Clone, Debug, PartialEq, Eq, Structural)]
pub struct OpcodeInfo {
    pub code: u8,
    pub operation: Operation,
    pub mode: AddressingMode,
    pub cycles: u8,
}

/// The largest base cycle cost in the table.
pub const MAX_CYCLES: u8 = 7;

/// The opcode table.
pub open spec fn opcode_info(op: OPCODE) -> OpcodeInfo {
    match op {
        OPCODE::STA_ZP => OpcodeInfo { code: 0x85, operation: Operation::Sta, mode: AddressingMode::ZeroPage, cycles: 3 },
        OPCODE::STA_ZPX => OpcodeInfo { code: 0x95, operation: Operation::Sta, mode: AddressingMode::ZeroPageX, cycles: 4 },
        OPCODE::STA_A => OpcodeInfo { code: 0x8D, operation: Operation::Sta, mode: AddressingMode::Absolute, cycles: 4 },
        OPCODE::STA_AX => OpcodeInfo { code: 0x9D, operation: Operation::Sta, mode: AddressingMode::AbsoluteX, cycles: 5 },
        OPCODE::STA_AY => OpcodeInfo { code: 0x99, operation: Operation::Sta, mode: AddressingMode::AbsoluteY, cycles: 5 },
        OPCODE::STA_IX => OpcodeInfo { code: 0x81, operation: Operation::Sta, mode: AddressingMode::IndexedIndirect, cycles: 6 },
        OPCODE::STA_IY => OpcodeInfo { code: 0x91, operation: Operation::Sta, mode: AddressingMode::IndirectIndexed, cycles: 6 },
        OPCODE::STX_ZP => OpcodeInfo { code: 0x86, operation: Operation::Stx, mode: AddressingMode::ZeroPage, cycles: 3 },
        OPCODE::STX_ZPY => OpcodeInfo { code: 0x96, operation: Operation::Stx, mode: AddressingMode::ZeroPageY, cycles: 4 },
        OPCODE::STX_A => OpcodeInfo { code: 0x8E, operation: Operation::Stx, mode: AddressingMode::Absolute, cycles: 4 },
        OPCODE::STY_ZP => OpcodeInfo { code: 0x84, operation: Operation::Sty, mode: AddressingMode::ZeroPage, cycles: 3 },
        OPCODE::STY_ZPX => OpcodeInfo { code: 0x94, operation: Operation::Sty, mode: AddressingMode::ZeroPageX, cycles: 4 },
        OPCODE::STY_A => OpcodeInfo { code: 0x8C, operation: Operation::Sty, mode: AddressingMode::Absolute, cycles: 4 },
        OPCODE::LDA_I => OpcodeInfo { code: 0xA9, operation: Operation::Lda, mode: AddressingMode::Immediate, cycles: 2 },
        OPCODE::LDA_ZP => OpcodeInfo { code: 0xA5, operation: Operation::Lda, mode: AddressingMode::ZeroPage, cycles: 3 },
        OPCODE::LDA_ZPX => OpcodeInfo { code: 0xB5, operation: Operation::Lda, mode: AddressingMode::ZeroPageX, cycles: 4 },
        OPCODE::LDA_A => OpcodeInfo { code: 0xAD, operation: Operation::Lda, mode: AddressingMode::Absolute, cycles: 4 },
        OPCODE::LDA_AX => OpcodeInfo { code: 0xBD, operation: Operation::Lda, mode: AddressingMode::AbsoluteX, cycles: 4 },
        OPCODE::LDA_AY => OpcodeInfo { code: 0xB9, operation: Operation::Lda, mode: AddressingMode::AbsoluteY, cycles: 4 },
        OPCODE::LDA_IX => OpcodeInfo { code: 0xA1, operation: Operation::Lda, mode: AddressingMode::IndexedIndirect, cycles: 6 },
        OPCODE::LDA_IY => OpcodeInfo { code: 0xB1, operation: Operation::Lda, mode: AddressingMode::IndirectIndexed, cycles: 5 },
        OPCODE::LDX_I => OpcodeInfo { code: 0xA2, operation: Operation::Ldx, mode: AddressingMode::Immediate, cycles: 2 },
        OPCODE::LDX_A => OpcodeInfo { code: 0xAE, operation: Operation::Ldx, mode: AddressingMode::Absolute, cycles: 4 },
        OPCODE::LDX_AY => OpcodeInfo { code: 0xBE, operation: Operation::Ldx, mode: AddressingMode::AbsoluteY, cycles: 4 },
        OPCODE::LDX_ZP => OpcodeInfo { code: 0xA6, operation: Operation::Ldx, mode: AddressingMode::ZeroPage, cycles: 3 },
        OPCODE::LDX_ZPY => OpcodeInfo { code: 0xB6, operation: Operation::Ldx, mode: AddressingMode::ZeroPageY, cycles: 4 },
        OPCODE::LDY_I => OpcodeInfo { code: 0xA0, operation: Operation::Ldy, mode: AddressingMode::Immediate, cycles: 2 },
        OPCODE::LDY_A => OpcodeInfo { code: 0xAC, operation: Operation::Ldy, mode: AddressingMode::Absolute, cycles: 4 },
        OPCODE::LDY_AX => OpcodeInfo { code: 0xBC, operation: Operation::Ldy, mode: AddressingMode::AbsoluteX, cycles: 4 },
        OPCODE::LDY_ZP => OpcodeInfo { code: 0xA4, operation: Operation::Ldy, mode: AddressingMode::ZeroPage, cycles: 3 },
        OPCODE::LDY_ZPX => OpcodeInfo { code: 0xB4, operation: Operation::Ldy, mode: AddressingMode::ZeroPageX, cycles: 4 },
        OPCODE::CMP_I => OpcodeInfo { code: 0xC9, operation: Operation::Cmp, mode: AddressingMode::Immediate, cycles: 2 },
        OPCODE::CMP_ZP => OpcodeInfo { code: 0xC5, operation: Operation::Cmp, mode: AddressingMode::ZeroPage, cycles: 3 },
        OPCODE::CMP_ZPX => OpcodeInfo { code: 0xD5, operation: Operation::Cmp, mode: AddressingMode::ZeroPageX, cycles: 4 },
        OPCODE::CMP_A => OpcodeInfo { code: 0xCD, operation: Operation::Cmp, mode: AddressingMode::Absolute, cycles: 4 },
        OPCODE::CMP_AX => OpcodeInfo { code: 0xDD, operation: Operation::Cmp, mode: AddressingMode::AbsoluteX, cycles: 4 },
        OPCODE::CMP_AY => OpcodeInfo { code: 0xD9, operation: Operation::Cmp, mode: AddressingMode::AbsoluteY, cycles: 4 },
        OPCODE::CMP_IX => OpcodeInfo { code: 0xC1, operation: Operation::Cmp, mode: AddressingMode::IndexedIndirect, cycles: 6 },
        OPCODE::CMP_IY => OpcodeInfo { code: 0xD1, operation: Operation::Cmp, mode: AddressingMode::IndirectIndexed, cycles: 5 },
        OPCODE::CPX_I => OpcodeInfo { code: 0xE0, operation: Operation::Cpx, mode: AddressingMode::Immediate, cycles: 2 },
        OPCODE::CPX_A => OpcodeInfo { code: 0xEC, operation: Operation::Cpx, mode: AddressingMode::Absolute, cycles: 4 },
        OPCODE::CPX_ZP => OpcodeInfo { code: 0xE4, operation: Operation::Cpx, mode: AddressingMode::ZeroPage, cycles: 3 },
        OPCODE::CPY_I => OpcodeInfo { code: 0xC0, operation: Operation::Cpy, mode: AddressingMode::Immediate, cycles: 2 },
        OPCODE::CPY_A => OpcodeInfo { code: 0xCC, operation: Operation::Cpy, mode: AddressingMode::Absolute, cycles: 4 },
        OPCODE::CPY_ZP => OpcodeInfo { code: 0xC4, operation: Operation::Cpy, mode: AddressingMode::ZeroPage, cycles: 3 },
        OPCODE::ADC_I => OpcodeInfo { code: 0x69, operation: Operation::Adc, mode: AddressingMode::Immediate, cycles: 2 },
        OPCODE::ADC_ZP => OpcodeInfo { code: 0x65, operation: Operation::Adc, mode: AddressingMode::ZeroPage, cycles: 3 },
        OPCODE::ADC_ZPX => OpcodeInfo { code: 0x75, operation: Operation::Adc, mode: AddressingMode::ZeroPageX, cycles: 4 },
        OPCODE::ADC_A => OpcodeInfo { code: 0x6D, operation: Operation::Adc, mode: AddressingMode::Absolute, cycles: 4 },
        OPCODE::ADC_AX => OpcodeInfo { code: 0x7D, operation: Operation::Adc, mode: AddressingMode::AbsoluteX, cycles: 4 },
        OPCODE::ADC_AY => OpcodeInfo { code: 0x79, operation: Operation::Adc, mode: AddressingMode::AbsoluteY, cycles: 4 },
        OPCODE::ADC_IX => OpcodeInfo { code: 0x61, operation: Operation::Adc, mode: AddressingMode::IndexedIndirect, cycles: 6 },
        OPCODE::ADC_IY => OpcodeInfo { code: 0x71, operation: Operation::Adc, mode: AddressingMode::IndirectIndexed, cycles: 5 },
        OPCODE::AND_I => OpcodeInfo { code: 0x29, operation: Operation::And, mode: AddressingMode::Immediate, cycles: 2 },
        OPCODE::AND_ZP => OpcodeInfo { code: 0x25, operation: Operation::And, mode: AddressingMode::ZeroPage, cycles: 3 },
        OPCODE::AND_ZPX => OpcodeInfo { code: 0x35, operation: Operation::And, mode: AddressingMode::ZeroPageX, cycles: 4 },
        OPCODE::AND_A => OpcodeInfo { code: 0x2D, operation: Operation::And, mode: AddressingMode::Absolute, cycles: 4 },
        OPCODE::AND_AX => OpcodeInfo { code: 0x3D, operation: Operation::And, mode: AddressingMode::AbsoluteX, cycles: 4 },
        OPCODE::AND_AY => OpcodeInfo { code: 0x39, operation: Operation::And, mode: AddressingMode::AbsoluteY, cycles: 4 },
        OPCODE::AND_IX => OpcodeInfo { code: 0x21, operation: Operation::And, mode: AddressingMode::IndexedIndirect, cycles: 6 },
        OPCODE::AND_IY => OpcodeInfo { code: 0x31, operation: Operation::And, mode: AddressingMode::IndirectIndexed, cycles: 5 },
        OPCODE::ASL_ACC => OpcodeInfo { code: 0x0A, operation: Operation::Asl, mode: AddressingMode::Accumulator, cycles: 2 },
        OPCODE::ASL_ZP => OpcodeInfo { code: 0x06, operation: Operation::Asl, mode: AddressingMode::ZeroPage, cycles: 5 },
        OPCODE::ASL_ZPX => OpcodeInfo { code: 0x16, operation: Operation::Asl, mode: AddressingMode::ZeroPageX, cycles: 6 },
        OPCODE::ASL_A => OpcodeInfo { code: 0x0E, operation: Operation::Asl, mode: AddressingMode::Absolute, cycles: 6 },
        OPCODE::ASL_AX => OpcodeInfo { code: 0x1E, operation: Operation::Asl, mode: AddressingMode::AbsoluteX, cycles: 7 },
        OPCODE::BIT_ZP => OpcodeInfo { code: 0x24, operation: Operation::Bit, mode: AddressingMode::ZeroPage, cycles: 3 },
        OPCODE::BIT_A => OpcodeInfo { code: 0x2C, operation: Operation::Bit, mode: AddressingMode::Absolute, cycles: 4 },
        OPCODE::BPL => OpcodeInfo { code: 0x10, operation: Operation::Bpl, mode: AddressingMode::Relative, cycles: 2 },
        OPCODE::BMI => OpcodeInfo { code: 0x30, operation: Operation::Bmi, mode: AddressingMode::Relative, cycles: 2 },
        OPCODE::BVC => OpcodeInfo { code: 0x50, operation: Operation::Bvc, mode: AddressingMode::Relative, cycles: 2 },
        OPCODE::BVS => OpcodeInfo { code: 0x70, operation: Operation::Bvs, mode: AddressingMode::Relative, cycles: 2 },
        OPCODE::BCC => OpcodeInfo { code: 0x90, operation: Operation::Bcc, mode: AddressingMode::Relative, cycles: 2 },
        OPCODE::BCS => OpcodeInfo { code: 0xB0, operation: Operation::Bcs, mode: AddressingMode::Relative, cycles: 2 },
        OPCODE::BNE => OpcodeInfo { code: 0xD0, operation: Operation::Bne, mode: AddressingMode::Relative, cycles: 2 },
        OPCODE::BEQ => OpcodeInfo { code: 0xF0, operation: Operation::Beq, mode: AddressingMode::Relative, cycles: 2 },
        OPCODE::BRK => OpcodeInfo { code: 0x00, operation: Operation::Brk, mode: AddressingMode::Implied, cycles: 7 },
        OPCODE::DEC_ZP => OpcodeInfo { code: 0xC6, operation: Operation::Dec, mode: AddressingMode::ZeroPage, cycles: 5 },
        OPCODE::DEC_ZPX => OpcodeInfo { code: 0xD6, operation: Operation::Dec, mode: AddressingMode::ZeroPageX, cycles: 6 },
        OPCODE::DEC_A => OpcodeInfo { code: 0xCE, operation: Operation::Dec, mode: AddressingMode::Absolute, cycles: 6 },
        OPCODE::DEC_AX => OpcodeInfo { code: 0xDE, operation: Operation::Dec, mode: AddressingMode::AbsoluteX, cycles: 7 },
        OPCODE::EOR_I => OpcodeInfo { code: 0x49, operation: Operation::Eor, mode: AddressingMode::Immediate, cycles: 2 },
        OPCODE::EOR_ZP => OpcodeInfo { code: 0x45, operation: Operation::Eor, mode: AddressingMode::ZeroPage, cycles: 3 },
        OPCODE::EOR_ZPX => OpcodeInfo { code: 0x55, operation: Operation::Eor, mode: AddressingMode::ZeroPageX, cycles: 4 },
        OPCODE::EOR_A => OpcodeInfo { code: 0x4D, operation: Operation::Eor, mode: AddressingMode::Absolute, cycles: 4 },
        OPCODE::EOR_AX => OpcodeInfo { code: 0x5D, operation: Operation::Eor, mode: AddressingMode::AbsoluteX, cycles: 4 },
        OPCODE::EOR_AY => OpcodeInfo { code: 0x59, operation: Operation::Eor, mode: AddressingMode::AbsoluteY, cycles: 4 },
        OPCODE::EOR_IX => OpcodeInfo { code: 0x41, operation: Operation::Eor, mode: AddressingMode::IndexedIndirect, cycles: 6 },
        OPCODE::EOR_IY => OpcodeInfo { code: 0x51, operation: Operation::Eor, mode: AddressingMode::IndirectIndexed, cycles: 5 },
        OPCODE::CLC => OpcodeInfo { code: 0x18, operation: Operation::Clc, mode: AddressingMode::Implied, cycles: 2 },
        OPCODE::SEC => OpcodeInfo { code: 0x38, operation: Operation::Sec, mode: AddressingMode::Implied, cycles: 2 },
        OPCODE::CLI => OpcodeInfo { code: 0x58, operation: Operation::Cli, mode: AddressingMode::Implied, cycles: 2 },
        OPCODE::SEI => OpcodeInfo { code: 0x78, operation: Operation::Sei, mode: AddressingMode::Implied, cycles: 2 },
        OPCODE::CLV => OpcodeInfo { code: 0xB8, operation: Operation::Clv, mode: AddressingMode::Implied, cycles: 2 },
        OPCODE::CLD => OpcodeInfo { code: 0xD8, operation: Operation::Cld, mode: AddressingMode::Implied, cycles: 2 },
        OPCODE::SED => OpcodeInfo { code: 0xF8, operation: Operation::Sed, mode: AddressingMode::Implied, cycles: 2 },
        OPCODE::INC_ZP => OpcodeInfo { code: 0xE6, operation: Operation::Inc, mode: AddressingMode::ZeroPage, cycles: 5 },
        OPCODE::INC_ZPX => OpcodeInfo { code: 0xF6, operation: Operation::Inc, mode: AddressingMode::ZeroPageX, cycles: 6 },
        OPCODE::INC_A => OpcodeInfo { code: 0xEE, operation: Operation::Inc, mode: AddressingMode::Absolute, cycles: 6 },
        OPCODE::INC_AX => OpcodeInfo { code: 0xFE, operation: Operation::Inc, mode: AddressingMode::AbsoluteX, cycles: 7 },
        OPCODE::JMP_A => OpcodeInfo { code: 0x4C, operation: Operation::Jmp, mode: AddressingMode::Absolute, cycles: 3 },
        OPCODE::JMP_I => OpcodeInfo { code: 0x6C, operation: Operation::Jmp, mode: AddressingMode::Indirect, cycles: 5 },
        OPCODE::JSR => OpcodeInfo { code: 0x20, operation: Operation::Jsr, mode: AddressingMode::Absolute, cycles: 6 },
        OPCODE::LSR_ACC => OpcodeInfo { code: 0x4A, operation: Operation::Lsr, mode: AddressingMode::Accumulator, cycles: 2 },
        OPCODE::LSR_ZP => OpcodeInfo { code: 0x46, operation: Operation::Lsr, mode: AddressingMode::ZeroPage, cycles: 5 },
        OPCODE::LSR_ZPX => OpcodeInfo { code: 0x56, operation: Operation::Lsr, mode: AddressingMode::ZeroPageX, cycles: 6 },
        OPCODE::LSR_A => OpcodeInfo { code: 0x4E, operation: Operation::Lsr, mode: AddressingMode::Absolute, cycles: 6 },
        OPCODE::LSR_AX => OpcodeInfo { code: 0x5E, operation: Operation::Lsr, mode: AddressingMode::AbsoluteX, cycles: 7 },
        OPCODE::NOP => OpcodeInfo { code: 0xEA, operation: Operation::Nop, mode: AddressingMode::Implied, cycles: 2 },
        OPCODE::ORA_I => OpcodeInfo { code: 0x09, operation: Operation::Ora, mode: AddressingMode::Immediate, cycles: 2 },
        OPCODE::ORA_ZP => OpcodeInfo { code: 0x05, operation: Operation::Ora, mode: AddressingMode::ZeroPage, cycles: 3 },
        OPCODE::ORA_ZPX => OpcodeInfo { code: 0x15, operation: Operation::Ora, mode: AddressingMode::ZeroPageX, cycles: 4 },
        OPCODE::ORA_A => OpcodeInfo { code: 0x0D, operation: Operation::Ora, mode: AddressingMode::Absolute, cycles: 4 },
        OPCODE::ORA_AX => OpcodeInfo { code: 0x1D, operation: Operation::Ora, mode: AddressingMode::AbsoluteX, cycles: 4 },
        OPCODE::ORA_AY => OpcodeInfo { code: 0x19, operation: Operation::Ora, mode: AddressingMode::AbsoluteY, cycles: 4 },
        OPCODE::ORA_IX => OpcodeInfo { code: 0x01, operation: Operation::Ora, mode: AddressingMode::IndexedIndirect, cycles: 6 },
        OPCODE::ORA_IY => OpcodeInfo { code: 0x11, operation: Operation::Ora, mode: AddressingMode::IndirectIndexed, cycles: 5 },
        OPCODE::TAX => OpcodeInfo { code: 0xAA, operation: Operation::Tax, mode: AddressingMode::Implied, cycles: 2 },
        OPCODE::TXA => OpcodeInfo { code: 0x8A, operation: Operation::Txa, mode: AddressingMode::Implied, cycles: 2 },
        OPCODE::DEX => OpcodeInfo { code: 0xCA, operation: Operation::Dex, mode: AddressingMode::Implied, cycles: 2 },
        OPCODE::INX => OpcodeInfo { code: 0xE8, operation: Operation::Inx, mode: AddressingMode::Implied, cycles: 2 },
        OPCODE::TAY => OpcodeInfo { code: 0xA8, operation: Operation::Tay, mode: AddressingMode::Implied, cycles: 2 },
        OPCODE::TYA => OpcodeInfo { code: 0x98, operation: Operation::Tya, mode: AddressingMode::Implied, cycles: 2 },
        OPCODE::DEY => OpcodeInfo { code: 0x88, operation: Operation::Dey, mode: AddressingMode::Implied, cycles: 2 },
        OPCODE::INY => OpcodeInfo { code: 0xC8, operation: Operation::Iny, mode: AddressingMode::Implied, cycles: 2 },
        OPCODE::ROL_ACC => OpcodeInfo { code: 0x2A, operation: Operation::Rol, mode: AddressingMode::Accumulator, cycles: 2 },
        OPCODE::ROL_ZP => OpcodeInfo { code: 0x26, operation: Operation::Rol, mode: AddressingMode::ZeroPage, cycles: 5 },
        OPCODE::ROL_ZPX => OpcodeInfo { code: 0x36, operation: Operation::Rol, mode: AddressingMode::ZeroPageX, cycles: 6 },
        OPCODE::ROL_A => OpcodeInfo { code: 0x2E, operation: Operation::Rol, mode: AddressingMode::Absolute, cycles: 6 },
        OPCODE::ROL_AX => OpcodeInfo { code: 0x3E, operation: Operation::Rol, mode: AddressingMode::AbsoluteX, cycles: 7 },
        OPCODE::ROR_ACC => OpcodeInfo { code: 0x6A, operation: Operation::Ror, mode: AddressingMode::Accumulator, cycles: 2 },
        OPCODE::ROR_ZP => OpcodeInfo { code: 0x66, operation: Operation::Ror, mode: AddressingMode::ZeroPage, cycles: 5 },
        OPCODE::ROR_ZPX => OpcodeInfo { code: 0x76, operation: Operation::Ror, mode: AddressingMode::ZeroPageX, cycles: 6 },
        OPCODE::ROR_A => OpcodeInfo { code: 0x6E, operation: Operation::Ror, mode: AddressingMode::Absolute, cycles: 6 },
        OPCODE::ROR_AX => OpcodeInfo { code: 0x7E, operation: Operation::Ror, mode: AddressingMode::AbsoluteX, cycles: 7 },
        OPCODE::RTI => OpcodeInfo { code: 0x40, operation: Operation::Rti, mode: AddressingMode::Implied, cycles: 6 },
        OPCODE::RTS => OpcodeInfo { code: 0x60, operation: Operation::Rts, mode: AddressingMode::Implied, cycles: 6 },
        OPCODE::SBC_I => OpcodeInfo { code: 0xE9, operation: Operation::Sbc, mode: AddressingMode::Immediate, cycles: 2 },
        OPCODE::SBC_ZP => OpcodeInfo { code: 0xE5, operation: Operation::Sbc, mode: AddressingMode::ZeroPage, cycles: 3 },
        OPCODE::SBC_ZPX => OpcodeInfo { code: 0xF5, operation: Operation::Sbc, mode: AddressingMode::ZeroPageX, cycles: 4 },
        OPCODE::SBC_A => OpcodeInfo { code: 0xED, operation: Operation::Sbc, mode: AddressingMode::Absolute, cycles: 4 },
        OPCODE::SBC_AX => OpcodeInfo { code: 0xFD, operation: Operation::Sbc, mode: AddressingMode::AbsoluteX, cycles: 4 },
        OPCODE::SBC_AY => OpcodeInfo { code: 0xF9, operation: Operation::Sbc, mode: AddressingMode::AbsoluteY, cycles: 4 },
        OPCODE::SBC_IX => OpcodeInfo { code: 0xE1, operation: Operation::Sbc, mode: AddressingMode::IndexedIndirect, cycles: 6 },
        OPCODE::SBC_IY => OpcodeInfo { code: 0xF1, operation: Operation::Sbc, mode: AddressingMode::IndirectIndexed, cycles: 5 },
        OPCODE::TXS => OpcodeInfo { code: 0x9A, operation: Operation::Txs, mode: AddressingMode::Implied, cycles: 2 },
        OPCODE::TSX => OpcodeInfo { code: 0xBA, operation: Operation::Tsx, mode: AddressingMode::Implied, cycles: 2 },
        OPCODE::PHA => OpcodeInfo { code: 0x48, operation: Operation::Pha, mode: AddressingMode::Implied, cycles: 3 },
        OPCODE::PLA => OpcodeInfo { code: 0x68, operation: Operation::Pla, mode: AddressingMode::Implied, cycles: 4 },
        OPCODE::PHP => OpcodeInfo { code: 0x08, operation: Operation::Php, mode: AddressingMode::Implied, cycles: 3 },
        OPCODE::PLP => OpcodeInfo { code: 0x28, operation: Operation::Plp, mode: AddressingMode::Implied, cycles: 4 },
    }
}

/// The opcode whose byte is `b`, if the table has one.
pub open spec fn opcode_for_byte(b: u8) -> Option<OPCODE> {
    match b {
        0x85 => Some(OPCODE::STA_ZP),
        0x95 => Some(OPCODE::STA_ZPX),
        0x8D => Some(OPCODE::STA_A),
        0x9D => Some(OPCODE::STA_AX),
        0x99 => Some(OPCODE::STA_AY),
        0x81 => Some(OPCODE::STA_IX),
        0x91 => Some(OPCODE::STA_IY),
        0x86 => Some(OPCODE::STX_ZP),
        0x96 => Some(OPCODE::STX_ZPY),
        0x8E => Some(OPCODE::STX_A),
        0x84 => Some(OPCODE::STY_ZP),
        0x94 => Some(OPCODE::STY_ZPX),
        0x8C => Some(OPCODE::STY_A),
        0xA9 => Some(OPCODE::LDA_I),
        0xA5 => Some(OPCODE::LDA_ZP),
        0xB5 => Some(OPCODE::LDA_ZPX),
        0xAD => Some(OPCODE::LDA_A),
        0xBD => Some(OPCODE::LDA_AX),
        0xB9 => Some(OPCODE::LDA_AY),
        0xA1 => Some(OPCODE::LDA_IX),
        0xB1 => Some(OPCODE::LDA_IY),
        0xA2 => Some(OPCODE::LDX_I),
        0xAE => Some(OPCODE::LDX_A),
        0xBE => Some(OPCODE::LDX_AY),
        0xA6 => Some(OPCODE::LDX_ZP),
        0xB6 => Some(OPCODE::LDX_ZPY),
        0xA0 => Some(OPCODE::LDY_I),
        0xAC => Some(OPCODE::LDY_A),
        0xBC => Some(OPCODE::LDY_AX),
        0xA4 => Some(OPCODE::LDY_ZP),
        0xB4 => Some(OPCODE::LDY_ZPX),
        0xC9 => Some(OPCODE::CMP_I),
        0xC5 => Some(OPCODE::CMP_ZP),
        0xD5 => Some(OPCODE::CMP_ZPX),
        0xCD => Some(OPCODE::CMP_A),
        0xDD => Some(OPCODE::CMP_AX),
        0xD9 => Some(OPCODE::CMP_AY),
        0xC1 => Some(OPCODE::CMP_IX),
        0xD1 => Some(OPCODE::CMP_IY),
        0xE0 => Some(OPCODE::CPX_I),
        0xEC => Some(OPCODE::CPX_A),
        0xE4 => Some(OPCODE::CPX_ZP),
        0xC0 => Some(OPCODE::CPY_I),
        0xCC => Some(OPCODE::CPY_A),
        0xC4 => Some(OPCODE::CPY_ZP),
        0x69 => Some(OPCODE::ADC_I),
        0x65 => Some(OPCODE::ADC_ZP),
        0x75 => Some(OPCODE::ADC_ZPX),
        0x6D => Some(OPCODE::ADC_A),
        0x7D => Some(OPCODE::ADC_AX),
        0x79 => Some(OPCODE::ADC_AY),
        0x61 => Some(OPCODE::ADC_IX),
        0x71 => Some(OPCODE::ADC_IY),
        0x29 => Some(OPCODE::AND_I),
        0x25 => Some(OPCODE::AND_ZP),
        0x35 => Some(OPCODE::AND_ZPX),
        0x2D => Some(OPCODE::AND_A),
        0x3D => Some(OPCODE::AND_AX),
        0x39 => Some(OPCODE::AND_AY),
        0x21 => Some(OPCODE::AND_IX),
        0x31 => Some(OPCODE::AND_IY),
        0x0A => Some(OPCODE::ASL_ACC),
        0x06 => Some(OPCODE::ASL_ZP),
        0x16 => Some(OPCODE::ASL_ZPX),
        0x0E => Some(OPCODE::ASL_A),
        0x1E => Some(OPCODE::ASL_AX),
        0x24 => Some(OPCODE::BIT_ZP),
        0x2C => Some(OPCODE::BIT_A),
        0x10 => Some(OPCODE::BPL),
        0x30 => Some(OPCODE::BMI),
        0x50 => Some(OPCODE::BVC),
        0x70 => Some(OPCODE::BVS),
        0x90 => Some(OPCODE::BCC),
        0xB0 => Some(OPCODE::BCS),
        0xD0 => Some(OPCODE::BNE),
        0xF0 => Some(OPCODE::BEQ),
        0x00 => Some(OPCODE::BRK),
        0xC6 => Some(OPCODE::DEC_ZP),
        0xD6 => Some(OPCODE::DEC_ZPX),
        0xCE => Some(OPCODE::DEC_A),
        0xDE => Some(OPCODE::DEC_AX),
        0x49 => Some(OPCODE::EOR_I),
        0x45 => Some(OPCODE::EOR_ZP),
        0x55 => Some(OPCODE::EOR_ZPX),
        0x4D => Some(OPCODE::EOR_A),
        0x5D => Some(OPCODE::EOR_AX),
        0x59 => Some(OPCODE::EOR_AY),
        0x41 => Some(OPCODE::EOR_IX),
        0x51 => Some(OPCODE::EOR_IY),
        0x18 => Some(OPCODE::CLC),
        0x38 => Some(OPCODE::SEC),
        0x58 => Some(OPCODE::CLI),
        0x78 => Some(OPCODE::SEI),
        0xB8 => Some(OPCODE::CLV),
        0xD8 => Some(OPCODE::CLD),
        0xF8 => Some(OPCODE::SED),
        0xE6 => Some(OPCODE::INC_ZP),
        0xF6 => Some(OPCODE::INC_ZPX),
        0xEE => Some(OPCODE::INC_A),
        0xFE => Some(OPCODE::INC_AX),
        0x4C => Some(OPCODE::JMP_A),
        0x6C => Some(OPCODE::JMP_I),
        0x20 => Some(OPCODE::JSR),
        0x4A => Some(OPCODE::LSR_ACC),
        0x46 => Some(OPCODE::LSR_ZP),
        0x56 => Some(OPCODE::LSR_ZPX),
        0x4E => Some(OPCODE::LSR_A),
        0x5E => Some(OPCODE::LSR_AX),
        0xEA => Some(OPCODE::NOP),
        0x09 => Some(OPCODE::ORA_I),
        0x05 => Some(OPCODE::ORA_ZP),
        0x15 => Some(OPCODE::ORA_ZPX),
        0x0D => Some(OPCODE::ORA_A),
        0x1D => Some(OPCODE::ORA_AX),
        0x19 => Some(OPCODE::ORA_AY),
        0x01 => Some(OPCODE::ORA_IX),
        0x11 => Some(OPCODE::ORA_IY),
        0xAA => Some(OPCODE::TAX),
        0x8A => Some(OPCODE::TXA),
        0xCA => Some(OPCODE::DEX),
        0xE8 => Some(OPCODE::INX),
        0xA8 => Some(OPCODE::TAY),
        0x98 => Some(OPCODE::TYA),
        0x88 => Some(OPCODE::DEY),
        0xC8 => Some(OPCODE::INY),
        0x2A => Some(OPCODE::ROL_ACC),
        0x26 => Some(OPCODE::ROL_ZP),
        0x36 => Some(OPCODE::ROL_ZPX),
        0x2E => Some(OPCODE::ROL_A),
        0x3E => Some(OPCODE::ROL_AX),
        0x6A => Some(OPCODE::ROR_ACC),
        0x66 => Some(OPCODE::ROR_ZP),
        0x76 => Some(OPCODE::ROR_ZPX),
        0x6E => Some(OPCODE::ROR_A),
        0x7E => Some(OPCODE::ROR_AX),
        0x40 => Some(OPCODE::RTI),
        0x60 => Some(OPCODE::RTS),
        0xE9 => Some(OPCODE::SBC_I),
        0xE5 => Some(OPCODE::SBC_ZP),
        0xF5 => Some(OPCODE::SBC_ZPX),
        0xED => Some(OPCODE::SBC_A),
        0xFD => Some(OPCODE::SBC_AX),
        0xF9 => Some(OPCODE::SBC_AY),
        0xE1 => Some(OPCODE::SBC_IX),
        0xF1 => Some(OPCODE::SBC_IY),
        0x9A => Some(OPCODE::TXS),
        0xBA => Some(OPCODE::TSX),
        0x48 => Some(OPCODE::PHA),
        0x68 => Some(OPCODE::PLA),
        0x08 => Some(OPCODE::PHP),
        0x28 => Some(OPCODE::PLP),
        _ => None,
    }
}

/// Instruction length in bytes, which the addressing mode determines.
pub open spec fn mode_size(mode: AddressingMode) -> u16 {
    match mode {
        AddressingMode::Implied | AddressingMode::Accumulator => 1,
        AddressingMode::Immediate
        | AddressingMode::Relative
        | AddressingMode::ZeroPage
        | AddressingMode::ZeroPageX
        | AddressingMode::ZeroPageY
        | AddressingMode::IndexedIndirect
        | AddressingMode::IndirectIndexed => 2,
        AddressingMode::Absolute
        | AddressingMode::AbsoluteX
        | AddressingMode::AbsoluteY
        | AddressingMode::Indirect => 3,
    }
}

/// Length in bytes of an instruction with opcode `op`.
pub open spec fn instruction_size(op: OPCODE) -> u16 {
    mode_size(opcode_info(op).mode)
}

/// Base cycle cost of an instruction with opcode `op`.
pub open spec fn instruction_cycles(op: OPCODE) -> u8 {
    opcode_info(op).cycles
}

impl AddressingMode {
    pub fn size(self) -> (r: u16)
        ensures
            r == mode_size(self),
    {
        match self {
            AddressingMode::Implied | AddressingMode::Accumulator => 1,
            AddressingMode::Immediate
            | AddressingMode::Relative
            | AddressingMode::ZeroPage
            | AddressingMode::ZeroPageX
            | AddressingMode::ZeroPageY
            | AddressingMode::IndexedIndirect
            | AddressingMode::IndirectIndexed => 2,
            AddressingMode::Absolute
            | AddressingMode::AbsoluteX
            | AddressingMode::AbsoluteY
            | AddressingMode::Indirect => 3,
        }
    }
}

impl OPCODE {
    /// This opcode's row of the table.
    pub fn info(self) -> (r: OpcodeInfo)
        ensures
            r == opcode_info(self),
    {
        match self {
            OPCODE::STA_ZP => OpcodeInfo { code: 0x85, operation: Operation::Sta, mode: AddressingMode::ZeroPage, cycles: 3 },
            OPCODE::STA_ZPX => OpcodeInfo { code: 0x95, operation: Operation::Sta, mode: AddressingMode::ZeroPageX, cycles: 4 },
            OPCODE::STA_A => OpcodeInfo { code: 0x8D, operation: Operation::Sta, mode: AddressingMode::Absolute, cycles: 4 },
            OPCODE::STA_AX => OpcodeInfo { code: 0x9D, operation: Operation::Sta, mode: AddressingMode::AbsoluteX, cycles: 5 },
            OPCODE::STA_AY => OpcodeInfo { code: 0x99, operation: Operation::Sta, mode: AddressingMode::AbsoluteY, cycles: 5 },
            OPCODE::STA_IX => OpcodeInfo { code: 0x81, operation: Operation::Sta, mode: AddressingMode::IndexedIndirect, cycles: 6 },
            OPCODE::STA_IY => OpcodeInfo { code: 0x91, operation: Operation::Sta, mode: AddressingMode::IndirectIndexed, cycles: 6 },
            OPCODE::STX_ZP => OpcodeInfo { code: 0x86, operation: Operation::Stx, mode: AddressingMode::ZeroPage, cycles: 3 },
            OPCODE::STX_ZPY => OpcodeInfo { code: 0x96, operation: Operation::Stx, mode: AddressingMode::ZeroPageY, cycles: 4 },
            OPCODE::STX_A => OpcodeInfo { code: 0x8E, operation: Operation::Stx, mode: AddressingMode::Absolute, cycles: 4 },
            OPCODE::STY_ZP => OpcodeInfo { code: 0x84, operation: Operation::Sty, mode: AddressingMode::ZeroPage, cycles: 3 },
            OPCODE::STY_ZPX => OpcodeInfo { code: 0x94, operation: Operation::Sty, mode: AddressingMode::ZeroPageX, cycles: 4 },
            OPCODE::STY_A => OpcodeInfo { code: 0x8C, operation: Operation::Sty, mode: AddressingMode::Absolute, cycles: 4 },
            OPCODE::LDA_I => OpcodeInfo { code: 0xA9, operation: Operation::Lda, mode: AddressingMode::Immediate, cycles: 2 },
            OPCODE::LDA_ZP => OpcodeInfo { code: 0xA5, operation: Operation::Lda, mode: AddressingMode::ZeroPage, cycles: 3 },
            OPCODE::LDA_ZPX => OpcodeInfo { code: 0xB5, operation: Operation::Lda, mode: AddressingMode::ZeroPageX, cycles: 4 },
            OPCODE::LDA_A => OpcodeInfo { code: 0xAD, operation: Operation::Lda, mode: AddressingMode::Absolute, cycles: 4 },
            OPCODE::LDA_AX => OpcodeInfo { code: 0xBD, operation: Operation::Lda, mode: AddressingMode::AbsoluteX, cycles: 4 },
            OPCODE::LDA_AY => OpcodeInfo { code: 0xB9, operation: Operation::Lda, mode: AddressingMode::AbsoluteY, cycles: 4 },
            OPCODE::LDA_IX => OpcodeInfo { code: 0xA1, operation: Operation::Lda, mode: AddressingMode::IndexedIndirect, cycles: 6 },
            OPCODE::LDA_IY => OpcodeInfo { code: 0xB1, operation: Operation::Lda, mode: AddressingMode::IndirectIndexed, cycles: 5 },
            OPCODE::LDX_I => OpcodeInfo { code: 0xA2, operation: Operation::Ldx, mode: AddressingMode::Immediate, cycles: 2 },
            OPCODE::LDX_A => OpcodeInfo { code: 0xAE, operation: Operation::Ldx, mode: AddressingMode::Absolute, cycles: 4 },
            OPCODE::LDX_AY => OpcodeInfo { code: 0xBE, operation: Operation::Ldx, mode: AddressingMode::AbsoluteY, cycles: 4 },
            OPCODE::LDX_ZP => OpcodeInfo { code: 0xA6, operation: Operation::Ldx, mode: AddressingMode::ZeroPage, cycles: 3 },
            OPCODE::LDX_ZPY => OpcodeInfo { code: 0xB6, operation: Operation::Ldx, mode: AddressingMode::ZeroPageY, cycles: 4 },
            OPCODE::LDY_I => OpcodeInfo { code: 0xA0, operation: Operation::Ldy, mode: AddressingMode::Immediate, cycles: 2 },
            OPCODE::LDY_A => OpcodeInfo { code: 0xAC, operation: Operation::Ldy, mode: AddressingMode::Absolute, cycles: 4 },
            OPCODE::LDY_AX => OpcodeInfo { code: 0xBC, operation: Operation::Ldy, mode: AddressingMode::AbsoluteX, cycles: 4 },
            OPCODE::LDY_ZP => OpcodeInfo { code: 0xA4, operation: Operation::Ldy, mode: AddressingMode::ZeroPage, cycles: 3 },
            OPCODE::LDY_ZPX => OpcodeInfo { code: 0xB4, operation: Operation::Ldy, mode: AddressingMode::ZeroPageX, cycles: 4 },
            OPCODE::CMP_I => OpcodeInfo { code: 0xC9, operation: Operation::Cmp, mode: AddressingMode::Immediate, cycles: 2 },
            OPCODE::CMP_ZP => OpcodeInfo { code: 0xC5, operation: Operation::Cmp, mode: AddressingMode::ZeroPage, cycles: 3 },
            OPCODE::CMP_ZPX => OpcodeInfo { code: 0xD5, operation: Operation::Cmp, mode: AddressingMode::ZeroPageX, cycles: 4 },
            OPCODE::CMP_A => OpcodeInfo { code: 0xCD, operation: Operation::Cmp, mode: AddressingMode::Absolute, cycles: 4 },
            OPCODE::CMP_AX => OpcodeInfo { code: 0xDD, operation: Operation::Cmp, mode: AddressingMode::AbsoluteX, cycles: 4 },
            OPCODE::CMP_AY => OpcodeInfo { code: 0xD9, operation: Operation::Cmp, mode: AddressingMode::AbsoluteY, cycles: 4 },
            OPCODE::CMP_IX => OpcodeInfo { code: 0xC1, operation: Operation::Cmp, mode: AddressingMode::IndexedIndirect, cycles: 6 },
            OPCODE::CMP_IY => OpcodeInfo { code: 0xD1, operation: Operation::Cmp, mode: AddressingMode::IndirectIndexed, cycles: 5 },
            OPCODE::CPX_I => OpcodeInfo { code: 0xE0, operation: Operation::Cpx, mode: AddressingMode::Immediate, cycles: 2 },
            OPCODE::CPX_A => OpcodeInfo { code: 0xEC, operation: Operation::Cpx, mode: AddressingMode::Absolute, cycles: 4 },
            OPCODE::CPX_ZP => OpcodeInfo { code: 0xE4, operation: Operation::Cpx, mode: AddressingMode::ZeroPage, cycles: 3 },
            OPCODE::CPY_I => OpcodeInfo { code: 0xC0, operation: Operation::Cpy, mode: AddressingMode::Immediate, cycles: 2 },
            OPCODE::CPY_A => OpcodeInfo { code: 0xCC, operation: Operation::Cpy, mode: AddressingMode::Absolute, cycles: 4 },
            OPCODE::CPY_ZP => OpcodeInfo { code: 0xC4, operation: Operation::Cpy, mode: AddressingMode::ZeroPage, cycles: 3 },
            OPCODE::ADC_I => OpcodeInfo { code: 0x69, operation: Operation::Adc, mode: AddressingMode::Immediate, cycles: 2 },
            OPCODE::ADC_ZP => OpcodeInfo { code: 0x65, operation: Operation::Adc, mode: AddressingMode::ZeroPage, cycles: 3 },
            OPCODE::ADC_ZPX => OpcodeInfo { code: 0x75, operation: Operation::Adc, mode: AddressingMode::ZeroPageX, cycles: 4 },
            OPCODE::ADC_A => OpcodeInfo { code: 0x6D, operation: Operation::Adc, mode: AddressingMode::Absolute, cycles: 4 },
            OPCODE::ADC_AX => OpcodeInfo { code: 0x7D, operation: Operation::Adc, mode: AddressingMode::AbsoluteX, cycles: 4 },
            OPCODE::ADC_AY => OpcodeInfo { code: 0x79, operation: Operation::Adc, mode: AddressingMode::AbsoluteY, cycles: 4 },
            OPCODE::ADC_IX => OpcodeInfo { code: 0x61, operation: Operation::Adc, mode: AddressingMode::IndexedIndirect, cycles: 6 },
            OPCODE::ADC_IY => OpcodeInfo { code: 0x71, operation: Operation::Adc, mode: AddressingMode::IndirectIndexed, cycles: 5 },
            OPCODE::AND_I => OpcodeInfo { code: 0x29, operation: Operation::And, mode: AddressingMode::Immediate, cycles: 2 },
            OPCODE::AND_ZP => OpcodeInfo { code: 0x25, operation: Operation::And, mode: AddressingMode::ZeroPage, cycles: 3 },
            OPCODE::AND_ZPX => OpcodeInfo { code: 0x35, operation: Operation::And, mode: AddressingMode::ZeroPageX, cycles: 4 },
            OPCODE::AND_A => OpcodeInfo { code: 0x2D, operation: Operation::And, mode: AddressingMode::Absolute, cycles: 4 },
            OPCODE::AND_AX => OpcodeInfo { code: 0x3D, operation: Operation::And, mode: AddressingMode::AbsoluteX, cycles: 4 },
            OPCODE::AND_AY => OpcodeInfo { code: 0x39, operation: Operation::And, mode: AddressingMode::AbsoluteY, cycles: 4 },
            OPCODE::AND_IX => OpcodeInfo { code: 0x21, operation: Operation::And, mode: AddressingMode::IndexedIndirect, cycles: 6 },
            OPCODE::AND_IY => OpcodeInfo { code: 0x31, operation: Operation::And, mode: AddressingMode::IndirectIndexed, cycles: 5 },
            OPCODE::ASL_ACC => OpcodeInfo { code: 0x0A, operation: Operation::Asl, mode: AddressingMode::Accumulator, cycles: 2 },
            OPCODE::ASL_ZP => OpcodeInfo { code: 0x06, operation: Operation::Asl, mode: AddressingMode::ZeroPage, cycles: 5 },
            OPCODE::ASL_ZPX => OpcodeInfo { code: 0x16, operation: Operation::Asl, mode: AddressingMode::ZeroPageX, cycles: 6 },
            OPCODE::ASL_A => OpcodeInfo { code: 0x0E, operation: Operation::Asl, mode: AddressingMode::Absolute, cycles: 6 },
            OPCODE::ASL_AX => OpcodeInfo { code: 0x1E, operation: Operation::Asl, mode: AddressingMode::AbsoluteX, cycles: 7 },
            OPCODE::BIT_ZP => OpcodeInfo { code: 0x24, operation: Operation::Bit, mode: AddressingMode::ZeroPage, cycles: 3 },
            OPCODE::BIT_A => OpcodeInfo { code: 0x2C, operation: Operation::Bit, mode: AddressingMode::Absolute, cycles: 4 },
            OPCODE::BPL => OpcodeInfo { code: 0x10, operation: Operation::Bpl, mode: AddressingMode::Relative, cycles: 2 },
            OPCODE::BMI => OpcodeInfo { code: 0x30, operation: Operation::Bmi, mode: AddressingMode::Relative, cycles: 2 },
            OPCODE::BVC => OpcodeInfo { code: 0x50, operation: Operation::Bvc, mode: AddressingMode::Relative, cycles: 2 },
            OPCODE::BVS => OpcodeInfo { code: 0x70, operation: Operation::Bvs, mode: AddressingMode::Relative, cycles: 2 },
            OPCODE::BCC => OpcodeInfo { code: 0x90, operation: Operation::Bcc, mode: AddressingMode::Relative, cycles: 2 },
            OPCODE::BCS => OpcodeInfo { code: 0xB0, operation: Operation::Bcs, mode: AddressingMode::Relative, cycles: 2 },
            OPCODE::BNE => OpcodeInfo { code: 0xD0, operation: Operation::Bne, mode: AddressingMode::Relative, cycles: 2 },
            OPCODE::BEQ => OpcodeInfo { code: 0xF0, operation: Operation::Beq, mode: AddressingMode::Relative, cycles: 2 },
            OPCODE::BRK => OpcodeInfo { code: 0x00, operation: Operation::Brk, mode: AddressingMode::Implied, cycles: 7 },
            OPCODE::DEC_ZP => OpcodeInfo { code: 0xC6, operation: Operation::Dec, mode: AddressingMode::ZeroPage, cycles: 5 },
            OPCODE::DEC_ZPX => OpcodeInfo { code: 0xD6, operation: Operation::Dec, mode: AddressingMode::ZeroPageX, cycles: 6 },
            OPCODE::DEC_A => OpcodeInfo { code: 0xCE, operation: Operation::Dec, mode: AddressingMode::Absolute, cycles: 6 },
            OPCODE::DEC_AX => OpcodeInfo { code: 0xDE, operation: Operation::Dec, mode: AddressingMode::AbsoluteX, cycles: 7 },
            OPCODE::EOR_I => OpcodeInfo { code: 0x49, operation: Operation::Eor, mode: AddressingMode::Immediate, cycles: 2 },
            OPCODE::EOR_ZP => OpcodeInfo { code: 0x45, operation: Operation::Eor, mode: AddressingMode::ZeroPage, cycles: 3 },
            OPCODE::EOR_ZPX => OpcodeInfo { code: 0x55, operation: Operation::Eor, mode: AddressingMode::ZeroPageX, cycles: 4 },
            OPCODE::EOR_A => OpcodeInfo { code: 0x4D, operation: Operation::Eor, mode: AddressingMode::Absolute, cycles: 4 },
            OPCODE::EOR_AX => OpcodeInfo { code: 0x5D, operation: Operation::Eor, mode: AddressingMode::AbsoluteX, cycles: 4 },
            OPCODE::EOR_AY => OpcodeInfo { code: 0x59, operation: Operation::Eor, mode: AddressingMode::AbsoluteY, cycles: 4 },
            OPCODE::EOR_IX => OpcodeInfo { code: 0x41, operation: Operation::Eor, mode: AddressingMode::IndexedIndirect, cycles: 6 },
            OPCODE::EOR_IY => OpcodeInfo { code: 0x51, operation: Operation::Eor, mode: AddressingMode::IndirectIndexed, cycles: 5 },
            OPCODE::CLC => OpcodeInfo { code: 0x18, operation: Operation::Clc, mode: AddressingMode::Implied, cycles: 2 },
            OPCODE::SEC => OpcodeInfo { code: 0x38, operation: Operation::Sec, mode: AddressingMode::Implied, cycles: 2 },
            OPCODE::CLI => OpcodeInfo { code: 0x58, operation: Operation::Cli, mode: AddressingMode::Implied, cycles: 2 },
            OPCODE::SEI => OpcodeInfo { code: 0x78, operation: Operation::Sei, mode: AddressingMode::Implied, cycles: 2 },
            OPCODE::CLV => OpcodeInfo { code: 0xB8, operation: Operation::Clv, mode: AddressingMode::Implied, cycles: 2 },
            OPCODE::CLD => OpcodeInfo { code: 0xD8, operation: Operation::Cld, mode: AddressingMode::Implied, cycles: 2 },
            OPCODE::SED => OpcodeInfo { code: 0xF8, operation: Operation::Sed, mode: AddressingMode::Implied, cycles: 2 },
            OPCODE::INC_ZP => OpcodeInfo { code: 0xE6, operation: Operation::Inc, mode: AddressingMode::ZeroPage, cycles: 5 },
            OPCODE::INC_ZPX => OpcodeInfo { code: 0xF6, operation: Operation::Inc, mode: AddressingMode::ZeroPageX, cycles: 6 },
            OPCODE::INC_A => OpcodeInfo { code: 0xEE, operation: Operation::Inc, mode: AddressingMode::Absolute, cycles: 6 },
            OPCODE::INC_AX => OpcodeInfo { code: 0xFE, operation: Operation::Inc, mode: AddressingMode::AbsoluteX, cycles: 7 },
            OPCODE::JMP_A => OpcodeInfo { code: 0x4C, operation: Operation::Jmp, mode: AddressingMode::Absolute, cycles: 3 },
            OPCODE::JMP_I => OpcodeInfo { code: 0x6C, operation: Operation::Jmp, mode: AddressingMode::Indirect, cycles: 5 },
            OPCODE::JSR => OpcodeInfo { code: 0x20, operation: Operation::Jsr, mode: AddressingMode::Absolute, cycles: 6 },
            OPCODE::LSR_ACC => OpcodeInfo { code: 0x4A, operation: Operation::Lsr, mode: AddressingMode::Accumulator, cycles: 2 },
            OPCODE::LSR_ZP => OpcodeInfo { code: 0x46, operation: Operation::Lsr, mode: AddressingMode::ZeroPage, cycles: 5 },
            OPCODE::LSR_ZPX => OpcodeInfo { code: 0x56, operation: Operation::Lsr, mode: AddressingMode::ZeroPageX, cycles: 6 },
            OPCODE::LSR_A => OpcodeInfo { code: 0x4E, operation: Operation::Lsr, mode: AddressingMode::Absolute, cycles: 6 },
            OPCODE::LSR_AX => OpcodeInfo { code: 0x5E, operation: Operation::Lsr, mode: AddressingMode::AbsoluteX, cycles: 7 },
            OPCODE::NOP => OpcodeInfo { code: 0xEA, operation: Operation::Nop, mode: AddressingMode::Implied, cycles: 2 },
            OPCODE::ORA_I => OpcodeInfo { code: 0x09, operation: Operation::Ora, mode: AddressingMode::Immediate, cycles: 2 },
            OPCODE::ORA_ZP => OpcodeInfo { code: 0x05, operation: Operation::Ora, mode: AddressingMode::ZeroPage, cycles: 3 },
            OPCODE::ORA_ZPX => OpcodeInfo { code: 0x15, operation: Operation::Ora, mode: AddressingMode::ZeroPageX, cycles: 4 },
            OPCODE::ORA_A => OpcodeInfo { code: 0x0D, operation: Operation::Ora, mode: AddressingMode::Absolute, cycles: 4 },
            OPCODE::ORA_AX => OpcodeInfo { code: 0x1D, operation: Operation::Ora, mode: AddressingMode::AbsoluteX, cycles: 4 },
            OPCODE::ORA_AY => OpcodeInfo { code: 0x19, operation: Operation::Ora, mode: AddressingMode::AbsoluteY, cycles: 4 },
            OPCODE::ORA_IX => OpcodeInfo { code: 0x01, operation: Operation::Ora, mode: AddressingMode::IndexedIndirect, cycles: 6 },
            OPCODE::ORA_IY => OpcodeInfo { code: 0x11, operation: Operation::Ora, mode: AddressingMode::IndirectIndexed, cycles: 5 },
            OPCODE::TAX => OpcodeInfo { code: 0xAA, operation: Operation::Tax, mode: AddressingMode::Implied, cycles: 2 },
            OPCODE::TXA => OpcodeInfo { code: 0x8A, operation: Operation::Txa, mode: AddressingMode::Implied, cycles: 2 },
            OPCODE::DEX => OpcodeInfo { code: 0xCA, operation: Operation::Dex, mode: AddressingMode::Implied, cycles: 2 },
            OPCODE::INX => OpcodeInfo { code: 0xE8, operation: Operation::Inx, mode: AddressingMode::Implied, cycles: 2 },
            OPCODE::TAY => OpcodeInfo { code: 0xA8, operation: Operation::Tay, mode: AddressingMode::Implied, cycles: 2 },
            OPCODE::TYA => OpcodeInfo { code: 0x98, operation: Operation::Tya, mode: AddressingMode::Implied, cycles: 2 },
            OPCODE::DEY => OpcodeInfo { code: 0x88, operation: Operation::Dey, mode: AddressingMode::Implied, cycles: 2 },
            OPCODE::INY => OpcodeInfo { code: 0xC8, operation: Operation::Iny, mode: AddressingMode::Implied, cycles: 2 },
            OPCODE::ROL_ACC => OpcodeInfo { code: 0x2A, operation: Operation::Rol, mode: AddressingMode::Accumulator, cycles: 2 },
            OPCODE::ROL_ZP => OpcodeInfo { code: 0x26, operation: Operation::Rol, mode: AddressingMode::ZeroPage, cycles: 5 },
            OPCODE::ROL_ZPX => OpcodeInfo { code: 0x36, operation: Operation::Rol, mode: AddressingMode::ZeroPageX, cycles: 6 },
            OPCODE::ROL_A => OpcodeInfo { code: 0x2E, operation: Operation::Rol, mode: AddressingMode::Absolute, cycles: 6 },
            OPCODE::ROL_AX => OpcodeInfo { code: 0x3E, operation: Operation::Rol, mode: AddressingMode::AbsoluteX, cycles: 7 },
            OPCODE::ROR_ACC => OpcodeInfo { code: 0x6A, operation: Operation::Ror, mode: AddressingMode::Accumulator, cycles: 2 },
            OPCODE::ROR_ZP => OpcodeInfo { code: 0x66, operation: Operation::Ror, mode: AddressingMode::ZeroPage, cycles: 5 },
            OPCODE::ROR_ZPX => OpcodeInfo { code: 0x76, operation: Operation::Ror, mode: AddressingMode::ZeroPageX, cycles: 6 },
            OPCODE::ROR_A => OpcodeInfo { code: 0x6E, operation: Operation::Ror, mode: AddressingMode::Absolute, cycles: 6 },
            OPCODE::ROR_AX => OpcodeInfo { code: 0x7E, operation: Operation::Ror, mode: AddressingMode::AbsoluteX, cycles: 7 },
            OPCODE::RTI => OpcodeInfo { code: 0x40, operation: Operation::Rti, mode: AddressingMode::Implied, cycles: 6 },
            OPCODE::RTS => OpcodeInfo { code: 0x60, operation: Operation::Rts, mode: AddressingMode::Implied, cycles: 6 },
            OPCODE::SBC_I => OpcodeInfo { code: 0xE9, operation: Operation::Sbc, mode: AddressingMode::Immediate, cycles: 2 },
            OPCODE::SBC_ZP => OpcodeInfo { code: 0xE5, operation: Operation::Sbc, mode: AddressingMode::ZeroPage, cycles: 3 },
            OPCODE::SBC_ZPX => OpcodeInfo { code: 0xF5, operation: Operation::Sbc, mode: AddressingMode::ZeroPageX, cycles: 4 },
            OPCODE::SBC_A => OpcodeInfo { code: 0xED, operation: Operation::Sbc, mode: AddressingMode::Absolute, cycles: 4 },
            OPCODE::SBC_AX => OpcodeInfo { code: 0xFD, operation: Operation::Sbc, mode: AddressingMode::AbsoluteX, cycles: 4 },
            OPCODE::SBC_AY => OpcodeInfo { code: 0xF9, operation: Operation::Sbc, mode: AddressingMode::AbsoluteY, cycles: 4 },
            OPCODE::SBC_IX => OpcodeInfo { code: 0xE1, operation: Operation::Sbc, mode: AddressingMode::IndexedIndirect, cycles: 6 },
            OPCODE::SBC_IY => OpcodeInfo { code: 0xF1, operation: Operation::Sbc, mode: AddressingMode::IndirectIndexed, cycles: 5 },
            OPCODE::TXS => OpcodeInfo { code: 0x9A, operation: Operation::Txs, mode: AddressingMode::Implied, cycles: 2 },
            OPCODE::TSX => OpcodeInfo { code: 0xBA, operation: Operation::Tsx, mode: AddressingMode::Implied, cycles: 2 },
            OPCODE::PHA => OpcodeInfo { code: 0x48, operation: Operation::Pha, mode: AddressingMode::Implied, cycles: 3 },
            OPCODE::PLA => OpcodeInfo { code: 0x68, operation: Operation::Pla, mode: AddressingMode::Implied, cycles: 4 },
            OPCODE::PHP => OpcodeInfo { code: 0x08, operation: Operation::Php, mode: AddressingMode::Implied, cycles: 3 },
            OPCODE::PLP => OpcodeInfo { code: 0x28, operation: Operation::Plp, mode: AddressingMode::Implied, cycles: 4 },
        }
    }

    /// The opcode byte.
    pub fn code(self) -> (r: u8)
        ensures
            r == opcode_info(self).code,
    {
        self.info().code
    }

    /// The opcode whose byte is `b`, or `None` where the table has no such byte.
    pub fn from_code(b: u8) -> (r: Option<OPCODE>)
        ensures
            r == opcode_for_byte(b),
    {
        match b {
            0x85 => Some(OPCODE::STA_ZP),
            0x95 => Some(OPCODE::STA_ZPX),
            0x8D => Some(OPCODE::STA_A),
            0x9D => Some(OPCODE::STA_AX),
            0x99 => Some(OPCODE::STA_AY),
            0x81 => Some(OPCODE::STA_IX),
            0x91 => Some(OPCODE::STA_IY),
            0x86 => Some(OPCODE::STX_ZP),
            0x96 => Some(OPCODE::STX_ZPY),
            0x8E => Some(OPCODE::STX_A),
            0x84 => Some(OPCODE::STY_ZP),
            0x94 => Some(OPCODE::STY_ZPX),
            0x8C => Some(OPCODE::STY_A),
            0xA9 => Some(OPCODE::LDA_I),
            0xA5 => Some(OPCODE::LDA_ZP),
            0xB5 => Some(OPCODE::LDA_ZPX),
            0xAD => Some(OPCODE::LDA_A),
            0xBD => Some(OPCODE::LDA_AX),
            0xB9 => Some(OPCODE::LDA_AY),
            0xA1 => Some(OPCODE::LDA_IX),
            0xB1 => Some(OPCODE::LDA_IY),
            0xA2 => Some(OPCODE::LDX_I),
            0xAE => Some(OPCODE::LDX_A),
            0xBE => Some(OPCODE::LDX_AY),
            0xA6 => Some(OPCODE::LDX_ZP),
            0xB6 => Some(OPCODE::LDX_ZPY),
            0xA0 => Some(OPCODE::LDY_I),
            0xAC => Some(OPCODE::LDY_A),
            0xBC => Some(OPCODE::LDY_AX),
            0xA4 => Some(OPCODE::LDY_ZP),
            0xB4 => Some(OPCODE::LDY_ZPX),
            0xC9 => Some(OPCODE::CMP_I),
            0xC5 => Some(OPCODE::CMP_ZP),
            0xD5 => Some(OPCODE::CMP_ZPX),
            0xCD => Some(OPCODE::CMP_A),
            0xDD => Some(OPCODE::CMP_AX),
            0xD9 => Some(OPCODE::CMP_AY),
            0xC1 => Some(OPCODE::CMP_IX),
            0xD1 => Some(OPCODE::CMP_IY),
            0xE0 => Some(OPCODE::CPX_I),
            0xEC => Some(OPCODE::CPX_A),
            0xE4 => Some(OPCODE::CPX_ZP),
            0xC0 => Some(OPCODE::CPY_I),
            0xCC => Some(OPCODE::CPY_A),
            0xC4 => Some(OPCODE::CPY_ZP),
            0x69 => Some(OPCODE::ADC_I),
            0x65 => Some(OPCODE::ADC_ZP),
            0x75 => Some(OPCODE::ADC_ZPX),
            0x6D => Some(OPCODE::ADC_A),
            0x7D => Some(OPCODE::ADC_AX),
            0x79 => Some(OPCODE::ADC_AY),
            0x61 => Some(OPCODE::ADC_IX),
            0x71 => Some(OPCODE::ADC_IY),
            0x29 => Some(OPCODE::AND_I),
            0x25 => Some(OPCODE::AND_ZP),
            0x35 => Some(OPCODE::AND_ZPX),
            0x2D => Some(OPCODE::AND_A),
            0x3D => Some(OPCODE::AND_AX),
            0x39 => Some(OPCODE::AND_AY),
            0x21 => Some(OPCODE::AND_IX),
            0x31 => Some(OPCODE::AND_IY),
            0x0A => Some(OPCODE::ASL_ACC),
            0x06 => Some(OPCODE::ASL_ZP),
            0x16 => Some(OPCODE::ASL_ZPX),
            0x0E => Some(OPCODE::ASL_A),
            0x1E => Some(OPCODE::ASL_AX),
            0x24 => Some(OPCODE::BIT_ZP),
            0x2C => Some(OPCODE::BIT_A),
            0x10 => Some(OPCODE::BPL),
            0x30 => Some(OPCODE::BMI),
            0x50 => Some(OPCODE::BVC),
            0x70 => Some(OPCODE::BVS),
            0x90 => Some(OPCODE::BCC),
            0xB0 => Some(OPCODE::BCS),
            0xD0 => Some(OPCODE::BNE),
            0xF0 => Some(OPCODE::BEQ),
            0x00 => Some(OPCODE::BRK),
            0xC6 => Some(OPCODE::DEC_ZP),
            0xD6 => Some(OPCODE::DEC_ZPX),
            0xCE => Some(OPCODE::DEC_A),
            0xDE => Some(OPCODE::DEC_AX),
            0x49 => Some(OPCODE::EOR_I),
            0x45 => Some(OPCODE::EOR_ZP),
            0x55 => Some(OPCODE::EOR_ZPX),
            0x4D => Some(OPCODE::EOR_A),
            0x5D => Some(OPCODE::EOR_AX),
            0x59 => Some(OPCODE::EOR_AY),
            0x41 => Some(OPCODE::EOR_IX),
            0x51 => Some(OPCODE::EOR_IY),
            0x18 => Some(OPCODE::CLC),
            0x38 => Some(OPCODE::SEC),
            0x58 => Some(OPCODE::CLI),
            0x78 => Some(OPCODE::SEI),
            0xB8 => Some(OPCODE::CLV),
            0xD8 => Some(OPCODE::CLD),
            0xF8 => Some(OPCODE::SED),
            0xE6 => Some(OPCODE::INC_ZP),
            0xF6 => Some(OPCODE::INC_ZPX),
            0xEE => Some(OPCODE::INC_A),
            0xFE => Some(OPCODE::INC_AX),
            0x4C => Some(OPCODE::JMP_A),
            0x6C => Some(OPCODE::JMP_I),
            0x20 => Some(OPCODE::JSR),
            0x4A => Some(OPCODE::LSR_ACC),
            0x46 => Some(OPCODE::LSR_ZP),
            0x56 => Some(OPCODE::LSR_ZPX),
            0x4E => Some(OPCODE::LSR_A),
            0x5E => Some(OPCODE::LSR_AX),
            0xEA => Some(OPCODE::NOP),
            0x09 => Some(OPCODE::ORA_I),
            0x05 => Some(OPCODE::ORA_ZP),
            0x15 => Some(OPCODE::ORA_ZPX),
            0x0D => Some(OPCODE::ORA_A),
            0x1D => Some(OPCODE::ORA_AX),
            0x19 => Some(OPCODE::ORA_AY),
            0x01 => Some(OPCODE::ORA_IX),
            0x11 => Some(OPCODE::ORA_IY),
            0xAA => Some(OPCODE::TAX),
            0x8A => Some(OPCODE::TXA),
            0xCA => Some(OPCODE::DEX),
            0xE8 => Some(OPCODE::INX),
            0xA8 => Some(OPCODE::TAY),
            0x98 => Some(OPCODE::TYA),
            0x88 => Some(OPCODE::DEY),
            0xC8 => Some(OPCODE::INY),
            0x2A => Some(OPCODE::ROL_ACC),
            0x26 => Some(OPCODE::ROL_ZP),
            0x36 => Some(OPCODE::ROL_ZPX),
            0x2E => Some(OPCODE::ROL_A),
            0x3E => Some(OPCODE::ROL_AX),
            0x6A => Some(OPCODE::ROR_ACC),
            0x66 => Some(OPCODE::ROR_ZP),
            0x76 => Some(OPCODE::ROR_ZPX),
            0x6E => Some(OPCODE::ROR_A),
            0x7E => Some(OPCODE::ROR_AX),
            0x40 => Some(OPCODE::RTI),
            0x60 => Some(OPCODE::RTS),
            0xE9 => Some(OPCODE::SBC_I),
            0xE5 => Some(OPCODE::SBC_ZP),
            0xF5 => Some(OPCODE::SBC_ZPX),
            0xED => Some(OPCODE::SBC_A),
            0xFD => Some(OPCODE::SBC_AX),
            0xF9 => Some(OPCODE::SBC_AY),
            0xE1 => Some(OPCODE::SBC_IX),
            0xF1 => Some(OPCODE::SBC_IY),
            0x9A => Some(OPCODE::TXS),
            0xBA => Some(OPCODE::TSX),
            0x48 => Some(OPCODE::PHA),
            0x68 => Some(OPCODE::PLA),
            0x08 => Some(OPCODE::PHP),
            0x28 => Some(OPCODE::PLP),
            _ => None,
        }
    }
}

/// Whether an addressing mode locates its operand by an address: every mode
/// but implied and accumulator. For immediate and relative operands the
/// address is that of the byte after the opcode.
pub open spec fn has_address(mode: AddressingMode) -> bool {
    mode != AddressingMode::Implied && mode != AddressingMode::Accumulator
}

/// The addressing modes with which an operation may appear in the table.
pub open spec fn mode_fits(op: Operation, mode: AddressingMode) -> bool {
    match op {
        Operation::Asl | Operation::Lsr | Operation::Rol | Operation::Ror => {
            mode == AddressingMode::Accumulator || (has_address(mode) && mode
                != AddressingMode::Immediate && mode != AddressingMode::Relative && mode
                != AddressingMode::Indirect)
        },
        Operation::Bpl
        | Operation::Bmi
        | Operation::Bvc
        | Operation::Bvs
        | Operation::Bcc
        | Operation::Bcs
        | Operation::Bne
        | Operation::Beq => mode == AddressingMode::Relative,
        Operation::Jmp => mode == AddressingMode::Absolute || mode == AddressingMode::Indirect,
        Operation::Jsr => mode == AddressingMode::Absolute,
        Operation::Lda
        | Operation::Ldx
        | Operation::Ldy
        | Operation::Sta
        | Operation::Stx
        | Operation::Sty
        | Operation::Adc
        | Operation::Sbc
        | Operation::And
        | Operation::Ora
        | Operation::Eor
        | Operation::Bit
        | Operation::Cmp
        | Operation::Cpx
        | Operation::Cpy
        | Operation::Inc
        | Operation::Dec => has_address(mode) && mode != AddressingMode::Relative && mode
            != AddressingMode::Indirect,
        _ => mode == AddressingMode::Implied,
    }
}

/// Every row of the table pairs its operation with a mode that suits it,
/// costs between 2 and `MAX_CYCLES` cycles, and is found again from its byte.
pub proof fn lemma_opcode_table(op: OPCODE)
    ensures
        mode_fits(opcode_info(op).operation, opcode_info(op).mode),
        2 <= opcode_info(op).cycles <= MAX_CYCLES,
        opcode_for_byte(opcode_info(op).code) == Some(op),
{
}

/// Decoding a byte gives the opcode that encodes to that byte.
pub proof fn lemma_decode_encodes(b: u8)
    ensures
        match opcode_for_byte(b) {
            Some(op) => opcode_info(op).code == b,
            None => forall|op: OPCODE| #[trigger] opcode_info(op).code != b,
        },
{
    match opcode_for_byte(b) {
        Some(op) => {},
        None => {
            assert forall|op: OPCODE| #[trigger] opcode_info(op).code != b by {
                lemma_opcode_table(op);
            }
        },
    }
}

/// Why an instruction could not be built from an opcode and operand bytes.
#[derive(Copy, Clone, Debug, PartialEq, Eq, Structural)]
pub enum EncodeError {
    /// The opcode takes `expected` operand bytes and `got` were given.
    OperandCountMismatch { expected: usize, got: usize },
}

/// Why a byte could not be decoded.
#[derive(Copy, Clone, Debug, PartialEq, Eq, Structural)]
pub enum DecodeError {
    /// No entry of the opcode table has this byte.
    UnknownOpcode { opcode: u8 },
}

/// One instruction: its opcode, the operand bytes that follow it (empty for
/// an instruction decoded from memory, whose operands stay in memory), its
/// length in bytes and its base cycle cost.
#[derive(Debug)]
pub struct Instruction {
    opc: OPCODE,
    param: Vec<u8>,
    size: u16,
    cycles: u8,
}

impl Instruction {
    #[verifier::type_invariant]
    spec fn well_formed(&self) -> bool {
        &&& self.size == instruction_size(self.opc)
        &&& self.cycles == instruction_cycles(self.opc)
        &&& (self.param@.len() == 0 || self.param@.len() + 1 == self.size)
    }

    pub closed spec fn spec_opc(&self) -> OPCODE {
        self.opc
    }

    pub closed spec fn spec_param(&self) -> Seq<u8> {
        self.param@
    }

    /// The bytes that the instruction occupies in memory: opcode, then operands.
    pub open spec fn layout(&self) -> Seq<u8> {
        seq![opcode_info(self.spec_opc()).code].add(self.spec_param())
    }

    pub fn size(&self) -> (r: &u16)
        ensures
            *r == instruction_size(self.spec_opc()),
    {
        proof {
            use_type_invariant(self);
        }
        &self.size
    }

    pub fn opc(&self) -> (r: &OPCODE)
        ensures
            *r == self.spec_opc(),
    {
        &self.opc
    }

    pub fn param(&self) -> (r: &Vec<u8>)
        ensures
            r@ == self.spec_param(),
    {
        &self.param
    }

    pub fn cycles(&self) -> (r: &u8)
        ensures
            *r == instruction_cycles(self.spec_opc()),
    {
        proof {
            use_type_invariant(self);
        }
        &self.cycles
    }

    pub fn convert_to_mem_layout(&self) -> (r: Vec<u8>)
        ensures
            r@ == self.layout(),
            1 <= r@.len() <= 3,
    {
        proof {
            use_type_invariant(self);
        }
        let mut layout: Vec<u8> = Vec::new();
        layout.push(self.opc.code());
        let mut i: usize = 0;
        while i < self.param.len()
            invariant
                i <= self.param@.len(),
                layout@ == seq![opcode_info(self.opc).code].add(self.param@.subrange(0, i as int)),
            decreases self.param@.len() - i,
        {
            layout.push(self.param[i]);
            i += 1;
        }
        assert(self.param@.subrange(0, i as int) == self.param@);
        layout
    }

    /// The descriptor of an opcode, with no operand bytes.
    pub fn from_opcode(opcode: OPCODE) -> (r: Instruction)
        ensures
            r.spec_opc() == opcode,
            r.spec_param() == Seq::<u8>::empty(),
    {
        let info = opcode.info();
        Instruction { opc: opcode, param: Vec::new(), size: info.mode.size(), cycles: info.cycles }
    }

    /// The descriptor of the opcode whose byte is `code`.
    pub fn decode(code: u8) -> (r: Result<Instruction, DecodeError>)
        ensures
            match opcode_for_byte(code) {
                Some(op) => r is Ok && r->Ok_0.spec_opc() == op && r->Ok_0.spec_param().len() == 0,
                None => r == Err::<Instruction, DecodeError>(
                    DecodeError::UnknownOpcode { opcode: code },
                ),
            },
    {
        match OPCODE::from_code(code) {
            Some(op) => Ok(Instruction::from_opcode(op)),
            None => Err(DecodeError::UnknownOpcode { opcode: code }),
        }
    }

    /// An instruction with its operand bytes; there must be exactly one
    /// fewer than the instruction's length.
    pub fn new(opcode: OPCODE, param: &Vec<u8>) -> (r: Result<Instruction, EncodeError>)
        ensures
            param@.len() + 1 == instruction_size(opcode) <==> r is Ok,
            r is Ok ==> r->Ok_0.spec_opc() == opcode && r->Ok_0.spec_param() == param@,
            r is Err ==> r->Err_0 == (EncodeError::OperandCountMismatch {
                expected: (instruction_size(opcode) - 1) as usize,
                got: param@.len() as usize,
            }),
    {
        let ins = Instruction::from_opcode(opcode);
        proof {
            use_type_invariant(&ins);
        }
        let expected = (ins.size - 1) as usize;
        if param.len() != expected {
            return Err(EncodeError::OperandCountMismatch { expected, got: param.len() });
        }
        let mut operands: Vec<u8> = Vec::new();
        let mut i: usize = 0;
        while i < param.len()
            invariant
                i <= param@.len(),
                operands@ == param@.subrange(0, i as int),
            decreases param@.len() - i,
        {
            operands.push(param[i]);
            i += 1;
        }
        assert(operands@ == param@);
        Ok(Instruction { opc: opcode, param: operands, size: ins.size, cycles: ins.cycles })
    }
}

} // verus!
