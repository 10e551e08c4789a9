//! The flags word of the machine and the names of its bits.

use std::ops::{BitOr, BitOrAssign};
use vstd::prelude::*;

verus! {

/// The bits of the 64-bit flags word, by name. Each name stands for one bit
/// position. The reserved positions have names too, so that they can be
/// addressed and are never cleared by the way.
#[derive(Debug, Clone, Copy, PartialEq, Eq, Structural)]
#[allow(non_camel_case_types)]
pub enum RFlags {
    // FLAGS: bits 0 to 15
    /// bit 0: CF
    Carry,
    /// bit 1: reserved
    Reserved_1,
    /// bit 2: PF
    Parity,
    /// bit 3: reserved
    Reserved_2,
    /// bit 4: AF
    AuxCarry,
    /// bit 5: reserved
    Reserved_3,
    /// bit 6: ZF
    Zero,
    /// bit 7: SF
    Sign,
    /// bit 8: TF
    Trap,
    /// bit 9: IF
    Interrupt,
    /// bit 10: DF
    Direction,
    /// bit 11: OF
    Overflow,
    /// bit 12: IOPL, low bit
    IOPrivilegeLevelLow,
    /// bit 13: IOPL, high bit
    IOPrivilegeLevelHigh,
    /// bit 14: NT
    NestedTask,
    /// bit 15: MD
    Mode,
    // EFLAGS: bits 16 to 31
    /// bit 16: RF
    Resume,
    /// bit 17: VM
    Virtual8086,
    /// bit 18: AC
    AlignmentCheck,
    /// bit 19: VIF
    VirtualInterrupt,
    /// bit 20: VIP
    VirtualInterruptPending,
    /// bit 21: ID
    CanUseCpuidInstruction,
    /// bit 22: reserved
    Reserved_4,
    /// bit 23: reserved
    Reserved_5,
    /// bit 24: reserved
    Reserved_6,
    /// bit 25: reserved
    Reserved_7,
    /// bit 26: reserved
    Reserved_8,
    /// bit 27: reserved
    Reserved_9,
    /// bit 28: reserved
    Reserved_10,
    /// bit 29: reserved
    Reserved_11,
    /// bit 30: AES key schedule loaded
    AesKeyScheduleLoaded,
    /// bit 31: alternate instruction set enabled
    AlternateInstructionSetEnabled,
    // RFLAGS: bits 32 to 63, all reserved
    /// bit 32: reserved
    Reserved_12,
    /// bit 33: reserved
    Reserved_13,
    /// bit 34: reserved
    Reserved_14,
    /// bit 35: reserved
    Reserved_15,
    /// bit 36: reserved
    Reserved_16,
    /// bit 37: reserved
    Reserved_17,
    /// bit 38: reserved
    Reserved_18,
    /// bit 39: reserved
    Reserved_19,
    /// bit 40: reserved
    Reserved_20,
    /// bit 41: reserved
    Reserved_21,
    /// bit 42: reserved
    Reserved_22,
    /// bit 43: reserved
    Reserved_23,
    /// bit 44: reserved
    Reserved_24,
    /// bit 45: reserved
    Reserved_25,
    /// bit 46: reserved
    Reserved_26,
    /// bit 47: reserved
    Reserved_27,
    /// bit 48: reserved
    Reserved_28,
    /// bit 49: reserved
    Reserved_29,
    /// bit 50: reserved
    Reserved_30,
    /// bit 51: reserved
    Reserved_31,
    /// bit 52: reserved
    Reserved_32,
    /// bit 53: reserved
    Reserved_33,
    /// bit 54: reserved
    Reserved_34,
    /// bit 55: reserved
    Reserved_35,
    /// bit 56: reserved
    Reserved_36,
    /// bit 57: reserved
    Reserved_37,
    /// bit 58: reserved
    Reserved_38,
    /// bit 59: reserved
    Reserved_39,
    /// bit 60: reserved
    Reserved_40,
    /// bit 61: reserved
    Reserved_41,
    /// bit 62: reserved
    Reserved_42,
    /// bit 63: reserved
    Reserved_43,
}

impl RFlags {
    /// The position of the flag's bit in the flags word, from 0 to 63.
    pub open spec fn bit_index(self) -> nat {
        match self {
            RFlags::Carry => 0,
            RFlags::Reserved_1 => 1,
            RFlags::Parity => 2,
            RFlags::Reserved_2 => 3,
            RFlags::AuxCarry => 4,
            RFlags::Reserved_3 => 5,
            RFlags::Zero => 6,
            RFlags::Sign => 7,
            RFlags::Trap => 8,
            RFlags::Interrupt => 9,
            RFlags::Direction => 10,
            RFlags::Overflow => 11,
            RFlags::IOPrivilegeLevelLow => 12,
            RFlags::IOPrivilegeLevelHigh => 13,
            RFlags::NestedTask => 14,
            RFlags::Mode => 15,
            RFlags::Resume => 16,
            RFlags::Virtual8086 => 17,
            RFlags::AlignmentCheck => 18,
            RFlags::VirtualInterrupt => 19,
            RFlags::VirtualInterruptPending => 20,
            RFlags::CanUseCpuidInstruction => 21,
            RFlags::Reserved_4 => 22,
            RFlags::Reserved_5 => 23,
            RFlags::Reserved_6 => 24,
            RFlags::Reserved_7 => 25,
            RFlags::Reserved_8 => 26,
            RFlags::Reserved_9 => 27,
            RFlags::Reserved_10 => 28,
            RFlags::Reserved_11 => 29,
            RFlags::AesKeyScheduleLoaded => 30,
            RFlags::AlternateInstructionSetEnabled => 31,
            RFlags::Reserved_12 => 32,
            RFlags::Reserved_13 => 33,
            RFlags::Reserved_14 => 34,
            RFlags::Reserved_15 => 35,
            RFlags::Reserved_16 => 36,
            RFlags::Reserved_17 => 37,
            RFlags::Reserved_18 => 38,
            RFlags::Reserved_19 => 39,
            RFlags::Reserved_20 => 40,
            RFlags::Reserved_21 => 41,
            RFlags::Reserved_22 => 42,
            RFlags::Reserved_23 => 43,
            RFlags::Reserved_24 => 44,
            RFlags::Reserved_25 => 45,
            RFlags::Reserved_26 => 46,
            RFlags::Reserved_27 => 47,
            RFlags::Reserved_28 => 48,
            RFlags::Reserved_29 => 49,
            RFlags::Reserved_30 => 50,
            RFlags::Reserved_31 => 51,
            RFlags::Reserved_32 => 52,
            RFlags::Reserved_33 => 53,
            RFlags::Reserved_34 => 54,
            RFlags::Reserved_35 => 55,
            RFlags::Reserved_36 => 56,
            RFlags::Reserved_37 => 57,
            RFlags::Reserved_38 => 58,
            RFlags::Reserved_39 => 59,
            RFlags::Reserved_40 => 60,
            RFlags::Reserved_41 => 61,
            RFlags::Reserved_42 => 62,
            RFlags::Reserved_43 => 63,
        }
    }

    /// The flags word in which the flag's bit is set and no other.
    pub open spec fn mask_spec(self) -> u64 {
        1u64 << (self.bit_index() as u64)
    }

    /// The position of the flag's bit in the flags word, from 0 to 63.
    pub fn position(self) -> (p: u8)
        ensures
            p == self.bit_index(),
            p < 64,
    {
        match self {
            RFlags::Carry => 0,
            RFlags::Reserved_1 => 1,
            RFlags::Parity => 2,
            RFlags::Reserved_2 => 3,
            RFlags::AuxCarry => 4,
            RFlags::Reserved_3 => 5,
            RFlags::Zero => 6,
            RFlags::Sign => 7,
            RFlags::Trap => 8,
            RFlags::Interrupt => 9,
            RFlags::Direction => 10,
            RFlags::Overflow => 11,
            RFlags::IOPrivilegeLevelLow => 12,
            RFlags::IOPrivilegeLevelHigh => 13,
            RFlags::NestedTask => 14,
            RFlags::Mode => 15,
            RFlags::Resume => 16,
            RFlags::Virtual8086 => 17,
            RFlags::AlignmentCheck => 18,
            RFlags::VirtualInterrupt => 19,
            RFlags::VirtualInterruptPending => 20,
            RFlags::CanUseCpuidInstruction => 21,
            RFlags::Reserved_4 => 22,
            RFlags::Reserved_5 => 23,
            RFlags::Reserved_6 => 24,
            RFlags::Reserved_7 => 25,
            RFlags::Reserved_8 => 26,
            RFlags::Reserved_9 => 27,
            RFlags::Reserved_10 => 28,
            RFlags::Reserved_11 => 29,
            RFlags::AesKeyScheduleLoaded => 30,
            RFlags::AlternateInstructionSetEnabled => 31,
            RFlags::Reserved_12 => 32,
            RFlags::Reserved_13 => 33,
            RFlags::Reserved_14 => 34,
            RFlags::Reserved_15 => 35,
            RFlags::Reserved_16 => 36,
            RFlags::Reserved_17 => 37,
            RFlags::Reserved_18 => 38,
            RFlags::Reserved_19 => 39,
            RFlags::Reserved_20 => 40,
            RFlags::Reserved_21 => 41,
            RFlags::Reserved_22 => 42,
            RFlags::Reserved_23 => 43,
            RFlags::Reserved_24 => 44,
            RFlags::Reserved_25 => 45,
            RFlags::Reserved_26 => 46,
            RFlags::Reserved_27 => 47,
            RFlags::Reserved_28 => 48,
            RFlags::Reserved_29 => 49,
            RFlags::Reserved_30 => 50,
            RFlags::Reserved_31 => 51,
            RFlags::Reserved_32 => 52,
            RFlags::Reserved_33 => 53,
            RFlags::Reserved_34 => 54,
            RFlags::Reserved_35 => 55,
            RFlags::Reserved_36 => 56,
            RFlags::Reserved_37 => 57,
            RFlags::Reserved_38 => 58,
            RFlags::Reserved_39 => 59,
            RFlags::Reserved_40 => 60,
            RFlags::Reserved_41 => 61,
            RFlags::Reserved_42 => 62,
            RFlags::Reserved_43 => 63,
        }
    }

    /// The flags word in which the flag's bit is set and no other.
    #[verifier::when_used_as_spec(mask_spec)]
    pub fn mask(self) -> (m: u64)
        ensures
            m == self.mask_spec(),
    {
        1u64 << (self.position() as u64)
    }

    /// Sets a flag in the given flags word.
    pub fn set(flags: &mut u64, flag: RFlags)
        ensures
            *final(flags) == with_flag(*old(flags), flag),
    {
        *flags = *flags | flag.mask();
    }

    /// Clears a flag in the given flags word.
    pub fn clear(flags: &mut u64, flag: RFlags)
        ensures
            *final(flags) == without_flag(*old(flags), flag),
    {
        *flags = *flags & !flag.mask();
    }

    /// Whether a flag is set in the given flags word.
    pub fn is_set(flags: u64, flag: RFlags) -> (b: bool)
        ensures
            b == has_flag(flags, flag),
    {
        flags & flag.mask() != 0
    }
}

/// `flags` with the bit of `flag` set.
pub open spec fn with_flag(flags: u64, flag: RFlags) -> u64 {
    flags | flag.mask_spec()
}

/// `flags` with the bit of `flag` cleared.
pub open spec fn without_flag(flags: u64, flag: RFlags) -> u64 {
    flags & !flag.mask_spec()
}

/// Whether the bit of `flag` is set in `flags`.
pub open spec fn has_flag(flags: u64, flag: RFlags) -> bool {
    flags & flag.mask_spec() != 0
}

/// The flag operations as methods of the flags word itself, so that a plain
/// `u64` can be used without wrapping it.
pub trait AsRFlags {
    /// The flags word that the value stands for.
    spec fn word(&self) -> u64;

    /// Sets a flag.
    fn set(&mut self, flag: RFlags)
        ensures
            final(self).word() == with_flag(old(self).word(), flag),
    ;

    /// Clears a flag.
    fn clear(&mut self, flag: RFlags)
        ensures
            final(self).word() == without_flag(old(self).word(), flag),
    ;

    /// Whether a flag is set.
    fn is_set(&self, flag: RFlags) -> (b: bool)
        ensures
            b == has_flag(self.word(), flag),
    ;
}

impl AsRFlags for u64 {
    open spec fn word(&self) -> u64 {
        *self
    }

    fn set(&mut self, flag: RFlags) {
        *self = *self | flag.mask();
    }

    fn clear(&mut self, flag: RFlags) {
        *self = *self & !flag.mask();
    }

    fn is_set(&self, flag: RFlags) -> (b: bool) {
        *self & flag.mask() != 0
    }
}

impl BitOrAssign<RFlags> for u64 {
    /// Sets a flag in a flags word.
    fn bitor_assign(&mut self, rhs: RFlags)
        ensures
            *final(self) == with_flag(*old(self), rhs),
    {
        *self = *self | rhs.mask();
    }
}

impl BitOr<RFlags> for RFlags {
    type Output = u64;

    /// The flags word in which the bits of both flags are set and no other,
    /// to initialise several flags at once.
    fn bitor(self, rhs: RFlags) -> (word: u64) {
        self.mask() | rhs.mask()
    }
}

impl vstd::std_specs::ops::BitOrSpecImpl<RFlags> for RFlags {
    open spec fn obeys_bitor_spec() -> bool {
        true
    }

    open spec fn bitor_req(self, rhs: RFlags) -> bool {
        true
    }

    /// What `a | b` means for two flags: the word with the bits of both.
    open spec fn bitor_spec(self, rhs: RFlags) -> u64 {
        self.mask_spec() | rhs.mask_spec()
    }
}

/// Two names stand for the same bit only if they are the same name.
pub proof fn lemma_positions_differ(a: RFlags, b: RFlags)
    requires
        a != b,
    ensures
        a.bit_index() != b.bit_index(),
        a.mask_spec() & b.mask_spec() == 0,
        a.mask_spec() != 0,
{
    let i = a.bit_index() as u64;
    let j = b.bit_index() as u64;
    assert((1u64 << i) & (1u64 << j) == 0 && (1u64 << i) != 0) by (bit_vector)
        requires
            i < 64,
            j < 64,
            i != j,
    ;
}

/// Setting or clearing a flag touches the bit of that flag only: every
/// other bit of the word, reserved or not, keeps its value.
pub proof fn lemma_only_own_bit_changes(flags: u64, flag: RFlags)
    ensures
        with_flag(flags, flag) & !flag.mask_spec() == flags & !flag.mask_spec(),
        without_flag(flags, flag) & !flag.mask_spec() == flags & !flag.mask_spec(),
        has_flag(with_flag(flags, flag), flag),
        !has_flag(without_flag(flags, flag), flag),
        forall|other: RFlags|
            other != flag ==> #[trigger] has_flag(with_flag(flags, flag), other) == has_flag(
                flags,
                other,
            ),
        forall|other: RFlags|
            other != flag ==> #[trigger] has_flag(without_flag(flags, flag), other) == has_flag(
                flags,
                other,
            ),
{
    let m = flag.mask_spec();
    let i = flag.bit_index() as u64;
    assert((1u64 << i) != 0) by (bit_vector)
        requires
            i < 64,
    ;
    assert((flags | m) & !m == flags & !m && (flags & !m) & !m == flags & !m && ((flags | m) & m
        != 0 <==> m != 0) && (flags & !m) & m == 0) by (bit_vector);
    assert forall|other: RFlags| other != flag implies #[trigger] has_flag(
        with_flag(flags, flag),
        other,
    ) == has_flag(flags, other) by {
        let o = other.mask_spec();
        lemma_positions_differ(flag, other);
        assert(m & o == 0 ==> (flags | m) & o == flags & o) by (bit_vector);
    }
    assert forall|other: RFlags| other != flag implies #[trigger] has_flag(
        without_flag(flags, flag),
        other,
    ) == has_flag(flags, other) by {
        let o = other.mask_spec();
        lemma_positions_differ(flag, other);
        assert(m & o == 0 ==> (flags & !m) & o == flags & o) by (bit_vector);
    }
}

/// After a flag is set and then cleared it is not set, and no other bit of
/// the word has changed: the word is the one from before with the flag's bit
/// cleared.
pub proof fn lemma_set_then_clear(flags: u64, flag: RFlags)
    ensures
        !has_flag(without_flag(with_flag(flags, flag), flag), flag),
        without_flag(with_flag(flags, flag), flag) == without_flag(flags, flag),
        without_flag(with_flag(flags, flag), flag) & !flag.mask_spec() == flags
            & !flag.mask_spec(),
        forall|other: RFlags|
            other != flag ==> #[trigger] has_flag(
                without_flag(with_flag(flags, flag), flag),
                other,
            ) == has_flag(flags, other),
{
    let m = flag.mask_spec();
    assert((flags | m) & !m == flags & !m && (flags & !m) & !m == flags & !m && (flags & !m) & m
        == 0) by (bit_vector);
    lemma_only_own_bit_changes(flags, flag);
}

} // verus!
