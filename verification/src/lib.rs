pub mod addressing;
pub mod bits;
pub mod bus;
pub mod cartridge;
pub mod code_text;
pub mod disassembler;
pub mod emulator;
pub mod cpu;
pub mod decoding;
pub mod flags;
pub mod instruction;
pub mod laws;
pub mod opcodes;
pub mod program;
pub mod semantics;
