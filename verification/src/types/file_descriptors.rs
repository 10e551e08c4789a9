//! What the machine expects of anything that a guest can read from or write
//! to through a descriptor.

use crate::types::error::VmRuntimeError;
use vstd::prelude::*;

verus! {

/// Something that behaves like a file descriptor. Implementations live
/// outside this crate; the number of bytes moved is all that the machine
/// learns of a transfer.
pub trait DescriptorLike {
    /// Writes bytes from `buf` and returns how many were taken.
    fn write(&mut self, buf: &[u8]) -> Result<u64, VmRuntimeError>;

    /// Reads bytes into `buf` and returns how many were stored.
    fn read(&mut self, buf: &mut [u8]) -> Result<u64, VmRuntimeError>;
}

} // verus!
