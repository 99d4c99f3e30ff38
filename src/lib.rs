//! Execution core of a 6502-family processor emulator: an opcode table, an
//! addressing-mode resolver and per-operation flag rules, all verified
//! against a mathematical model of one instruction step.
pub mod cpu;
pub mod instructions;
pub mod memory;
pub mod register;
pub mod semantics;

pub use cpu::CPU;
pub use instructions::{Instruction, OPCODE};
pub use memory::Memory;
pub use register::Register;
pub use semantics::{CpuState, StepError};
