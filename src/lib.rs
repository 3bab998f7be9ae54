use vstd::prelude::*;

pub mod chip8;
pub mod cpu;
pub mod error;
pub mod laws;
pub mod machine;
pub mod ops;
pub mod platform;
pub mod random;
pub mod state;
pub mod virtual_machine;

pub use chip8::Chip8;
pub use cpu::{Cpu, Memory};
pub use error::{ExecutionError, LoadError};
pub use machine::Instruction;
pub use platform::{Platform, Quirk, Quirks, Target};
pub use state::{move_cursor, MenuMove, State};
pub use virtual_machine::VirtualMachine;

verus! {

/// Bytes per glyph of the built-in hexadecimal font.
pub const CHAR_SIZE: u8 = 0x5;

/// Address at which a program is loaded and execution starts.
pub const PROGRAM_START_ADDRESS: u16 = 0x200;

/// Size of the addressable memory in bytes.
pub const MEMORY_SIZE: usize = 0x1000;

/// Largest program that fits between the start address and the end of memory.
pub const MAX_PROGRAM_SIZE: usize = 0xE00;

} // verus!
