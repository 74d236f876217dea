//! An emulator core for an 8-bit microprocessor: register file, instruction
//! model, decoder and execution engine.

pub mod condition;
pub mod cpu;
pub mod disassembler;
pub mod instruction;
pub mod machine;
pub mod parser;
pub mod register;
pub mod text;
