//! Substrate of a software x86-64 processor emulator: register files with
//! sub-register aliasing, a bounds-checked flat memory and the dispatch tables
//! of the machine that owns them.

pub mod builders;
pub mod bytes;
pub mod flags;
pub mod functions;
pub mod intrinsics;
pub mod memory;
pub mod opcodes;
pub mod register_aliases;
pub mod registers;
pub mod types;
pub mod utils;
pub mod x86;
