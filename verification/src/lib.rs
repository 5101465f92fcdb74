//! Instruction-execution core of a Game-Boy-class 8-bit processor: the
//! register file, the memory bus, the opcode decoder and the execution
//! engine, each with a machine-checked contract.

pub mod cpu;
pub mod error;
pub mod memory_bus;
