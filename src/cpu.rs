//! The processor: registers, opcode table, addressing, execution and the clocked engine.

pub mod addressing;
pub mod cpu6502;
pub mod execute;
pub mod opcode;
pub mod register;
