//! A CHIP-8 virtual machine: memory, register file, call stack, timers and a
//! 64x32 monochrome display, driven by a fetch-decode-execute interpreter.

pub mod computer;
pub mod cpu;
pub mod display;
pub mod error;
pub mod laws;
pub mod machine;
pub mod opcode;
