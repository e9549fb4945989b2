//! A cycle-counting core of the 6502 family of 8-bit processors.

pub mod bus;
pub mod cpu;
