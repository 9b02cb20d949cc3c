//! An instruction-stepped emulator of the MOS 6502 microprocessor.

pub mod addressing;
pub mod cpu;
pub mod device;
pub mod dump;
pub mod instruction;
pub mod laws;
pub mod memory;
pub mod opcodes;
pub mod state;
pub mod status;
pub mod util;
