pub mod bios;
pub mod decoder;
pub mod disassembler;
pub mod dos;
pub mod emulator;
pub mod isa;
pub mod text;
