//! A verified MOS 6502 emulator core for a Famicom-style host, together with
//! a companion assembler.
//!
//! The crate is organised around one shared data model: an opcode byte split
//! into the bit-fields `aaa` (bits 7-5), `bbb` (bits 4-2) and `cc` (bits 1-0).
//! The decoder, the execution engine and the assembler's encoder all speak
//! about the same opcode table, stated once in [`decode`].

pub mod datastructures;
pub mod decode;
pub mod memory;
pub mod system;
pub mod assembler;
