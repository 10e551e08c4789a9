//! Value types shared by every part of the machine.

pub mod error;
pub mod file_descriptors;
pub mod memory;
pub mod policy;
