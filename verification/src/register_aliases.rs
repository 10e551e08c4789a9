//! Names and shapes of the sub-views of a register.

use std::ops::Range;
use vstd::prelude::*;

verus! {

/// A view into a register file: `width` bits, at the `offset`-th slot among
/// the slots of that same width. The offset counts slots, not bytes.
#[derive(Debug, Clone)]
pub struct Alias {
    pub width: u16,
    pub offset: u16,
}

impl Alias {
    /// Index of the first byte of the view.
    pub open spec fn start_byte(&self) -> nat {
        (self.offset as nat * self.width as nat) / 8
    }

    /// Number of whole bytes in the view.
    pub open spec fn byte_len(&self) -> nat {
        self.width as nat / 8
    }

    /// Index one past the last byte of the view.
    pub open spec fn end_byte(&self) -> nat {
        self.start_byte() + self.byte_len()
    }

    /// The view has one of the widths that instructions address: 8, 16, 32
    /// or 64 bits. The typed accesses of a checked register file let no
    /// other view pass.
    pub open spec fn well_formed(&self) -> bool {
        self.width == 8 || self.width == 16 || self.width == 32 || self.width == 64
    }

    /// The bytes of the register file that the view covers.
    pub fn range(&self) -> (r: Range<usize>)
        ensures
            r.start == self.start_byte(),
            r.end == self.end_byte(),
    {
        let offset: u32 = self.offset as u32;
        let width: u32 = self.width as u32;
        assert(offset * width <= 0xffff * 0xffff) by (nonlinear_arith)
            requires
                offset <= 0xffff,
                width <= 0xffff,
        ;
        let start: usize = ((offset * width) / 8) as usize;
        start..start + ((self.width / 8) as usize)
    }
}

/// The names under which instructions address the general-purpose registers
/// and their low parts.
#[derive(Debug, Clone, Copy, PartialEq, Eq, Structural)]
pub enum RegisterAlias {
    RAX,
    RCX,
    RBX,
    RDX,
    RSP,
    RBP,
    RSI,
    RDI,
    EAX,
    ECX,
    EBX,
    EDX,
    ESP,
    EBP,
    ESI,
    EDI,
    AX,
    CX,
    BX,
    DX,
    SP,
    BP,
    SI,
    DI,
    AL,
    CL,
    BL,
    DL,
    SPL,
    BPL,
    SIL,
    DIL,
    R0D,
    R1D,
    R3D,
    R4D,
    R5D,
    R6D,
    R7D,
    R8D,
    R9D,
    R10D,
    R11D,
    R12D,
    R13D,
    R14D,
}

impl RegisterAlias {
    /// The view that the name stands for. No layout is attached to the
    /// names: each of them describes the view of width 0 at offset 0, which
    /// covers no byte and which every register file rejects as malformed.
    pub fn describe(&self) -> (alias: &'static Alias)
        ensures
            alias.offset == 0,
            alias.width == 0,
            alias.byte_len() == 0,
    {
        &Alias { offset: 0, width: 0 }
    }
}

} // verus!
