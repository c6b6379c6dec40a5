//! A verified core of a NES emulator: the 2A03 CPU, the CPU bus with its
//! mirrored regions and register windows, the iNES loader, the Nintendulator
//! trace format and the debugger's command logic.
//!
//! Every instruction is specified by `instruction::execute_spec`, a model
//! over registers and a view of the bus; the executable code is proved
//! against it, and the laws of the 6502 (stack round trips, mirrors, the
//! indirect JMP bug, flag rules, cycle penalties) are proved over it.

pub mod cpu;
pub mod debugger;
pub mod ines;
pub mod instruction;
pub mod memory;
pub mod nes;
pub mod opcode;
pub mod parser;
pub mod ppu;
pub mod text;
pub mod trace;
pub mod utils;
