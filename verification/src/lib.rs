//! A cycle-tracked interpreter for the MOS 6502 instruction set, with a
//! memory-mapped bus modelling an NES-style address space, an iNES cartridge
//! loader, and a fixed-column trace formatter for golden-log comparison.

pub mod bus;
pub mod cpu;
pub mod instruction;
pub mod laws;
pub mod rom;
pub mod trace;
