//! An emulation core for the 6502-family processor of the NES: the
//! instruction engine, the memory map it runs against and the iNES
//! cartridge loader, each with a machine-checked contract.

pub mod addressing;
pub mod bitfield;
pub mod cartridge;
pub mod cpu;
pub mod fault;
pub mod laws;
pub mod nes;
pub mod opcode;
pub mod ram;
pub mod registers;
pub mod semantics;
pub mod trace;
