//! The choice between validating every access and trusting the caller.

use vstd::prelude::*;

verus! {

/// How a register file or a machine treats an access that may be malformed.
#[derive(Debug, Clone, Copy, PartialEq, Eq, Structural)]
pub enum ValidationPolicy {
    /// Every access is validated first; a violation comes back as a
    /// structured error and changes nothing.
    Checked,
    /// Nothing is validated: the caller answers for the shape of every
    /// access, and the operation goes straight to the bytes.
    Unchecked,
}

impl Default for ValidationPolicy {
    fn default() -> (p: Self)
        ensures
            p == ValidationPolicy::Checked,
    {
        ValidationPolicy::Checked
    }
}

} // verus!
