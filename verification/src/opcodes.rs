//! The instructions that the machine is to understand, as they come out of
//! the decoder. Decoding and encoding are not part of this crate.

use vstd::prelude::*;

verus! {

/// The unsigned integers that can stand for an operand.
pub trait UnsignedInteger {

}

impl UnsignedInteger for u8 {

}

impl UnsignedInteger for u16 {

}

impl UnsignedInteger for u32 {

}

impl UnsignedInteger for u64 {

}

/// Where an operand lives: in a register or in memory. Which of the two is
/// encoded in the ModR/M byte that follows the opcode, at times together with
/// a SIB byte.
pub enum OperandType<T: UnsignedInteger> {
    Register(T),
    Memory(T),
}

/// One decoded instruction.
pub enum X86Opcode {
    Add00(OperandType<u8>, OperandType<u8>),
    Add01(OperandType<u8>, OperandType<u8>),
    AddR8M8(OperandType<u8>, OperandType<u8>),
    Add03(u8, u8),
    AddAlImm8(u8, u8),
    AddEaxImm(u8, u8),
    /// Push a register, given by its number
    Push(u8),
}

} // verus!
