//! What the machine reports when an operation cannot be carried out.

use vstd::prelude::*;

verus! {

/// A failure while the machine runs. None of these is retried or repaired
/// inside the machine: each is handed to the caller as it is.
#[derive(Debug, Clone)]
pub enum VmRuntimeError {
    /// Reading from a descriptor failed.
    FdReadError { code: u32, message: String },
    /// Writing to a descriptor failed.
    FdWriteError { code: u32, message: String },
    /// A binary image needs more memory than the machine was given.
    OutOfMemoryError { allocated: u64, required: u64 },
    /// A memory access reaches past the end of memory.
    OutOfBoundsError { address: u64 },
    /// No handler is known for this interrupt number.
    InterruptNotFound { code: u32 },
    /// No handler is known for this syscall number.
    SyscallNotFound { code: u32 },
    /// The alias is malformed: its width is no whole number of bytes, or its
    /// first bit is no multiple of the register width, so that it does not
    /// start on a register boundary.
    InvalidAlias { offset: u16, width: u16 },
    /// The alias is wider than a register of the file, or reaches past the
    /// file's last byte. `alignment` is the file's canonical width.
    RegisterAliasOverrun { offset: u16, width: u16, alignment: u16 },
}

/// The result of an operation that validates its arguments.
pub type SafetyResult<T> = Result<T, VmRuntimeError>;

/// Which of the parts of a machine were never given to its builder.
#[derive(Debug, Clone, Copy)]
pub struct VmBuildError {
    pub missing_memory: bool,
    pub missing_registers: bool,
    pub missing_interrupts: bool,
}

} // verus!
