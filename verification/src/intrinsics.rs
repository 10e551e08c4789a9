//! The types that a host handler works with, gathered in one place, so that
//! handlers can be written apart from the instruction set.

use vstd::prelude::*;

pub use crate::functions::InterruptVector;
pub use crate::functions::Intrinsic;
pub use crate::functions::SyscallVector;
pub use crate::functions::SystemFunction;
pub use crate::x86::X86Machine;

verus! {

/// Marks the traits of this crate that are not meant to be implemented
/// elsewhere.
pub trait Sealed {

}

} // verus!
