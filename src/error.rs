use vstd::prelude::*;

verus! {

/// Why one instruction could not be executed.
#[derive(Debug, Clone, Copy, PartialEq, Eq, Structural)]
pub enum ExecutionError {
    /// The instruction word matches no known instruction.
    InvalidOpcode(u16),
    /// A fetch or a memory operation would touch bytes past the end of memory;
    /// carries the address the access starts at.
    MemoryAccessError(u16),
    /// A call was made with all return-address slots in use.
    StackOverflow,
    /// A return was made with no return address on the stack.
    StackUnderflow,
    /// A key instruction named a key outside 0..16; carries the register value.
    InvalidKey(u8),
}

/// Why a program could not be loaded.
#[derive(Debug, Clone, PartialEq, Eq)]
pub enum LoadError {
    /// The path does not name a readable file.
    InvalidPath { path: String },
    /// The file could not be read.
    ReadError { path: String },
    /// The program is larger than the memory above the start address.
    TooLarge { length: usize },
}

} // verus!
