use lib_x86::flags::{AsRFlags, RFlags};

#[test]
fn it_works() {
    assert!(true)
}

#[test]
fn set_flags() {
    let mut flags = 0u64;
    let f = RFlags::Carry | RFlags::Interrupt;

    flags |= f;

    assert!(RFlags::is_set(flags, RFlags::Carry));
    assert!(RFlags::is_set(flags, RFlags::Interrupt));
}

#[test]
fn clear_flags() {
    let mut flags = 0u64;
    let f = RFlags::Carry | RFlags::Interrupt;

    flags |= f;

    assert!(RFlags::is_set(flags, RFlags::Carry));
    assert!(RFlags::is_set(flags, RFlags::Interrupt));

    flags.clear(RFlags::Carry);

    assert!(!RFlags::is_set(flags, RFlags::Carry));
    assert!(RFlags::is_set(flags, RFlags::Interrupt));
}

#[test]
fn flag_masks_are_single_bits() {
    assert_eq!(RFlags::Carry.mask(), 1);
    assert_eq!(RFlags::Parity.mask(), 1 << 2);
    assert_eq!(RFlags::Zero.mask(), 1 << 6);
    assert_eq!(RFlags::Interrupt.mask(), 1 << 9);
    assert_eq!(RFlags::Overflow.mask(), 1 << 11);
    assert_eq!(RFlags::CanUseCpuidInstruction.mask(), 1 << 21);
    assert_eq!(RFlags::AlternateInstructionSetEnabled.mask(), 1 << 31);
    assert_eq!(RFlags::Reserved_12.mask(), 1 << 32);
    assert_eq!(RFlags::Reserved_43.mask(), 1 << 63);
    assert_eq!(RFlags::Carry.position(), 0);
    assert_eq!(RFlags::Reserved_1.position(), 1);
    assert_eq!(RFlags::Reserved_11.position(), 29);
    assert_eq!(RFlags::AesKeyScheduleLoaded.position(), 30);
    assert_eq!(RFlags::Reserved_43.position(), 63);
}

#[test]
fn or_of_two_flags_is_the_word_with_both_bits() {
    assert_eq!(RFlags::Carry | RFlags::Interrupt, 0b10_0000_0001);
    assert_eq!(RFlags::Sign | RFlags::Sign, 1 << 7);
}

#[test]
fn set_then_clear_leaves_the_other_bits() {
    let before = 0xDEAD_BEEF_0BAD_F00Du64;
    let mut flags = before;
    RFlags::set(&mut flags, RFlags::Direction);
    assert_eq!(flags, before | (1 << 10));
    RFlags::clear(&mut flags, RFlags::Direction);
    assert!(!RFlags::is_set(flags, RFlags::Direction));
    assert_eq!(flags, before & !(1 << 10));
    assert_eq!(flags | (1 << 10), before | (1 << 10));
}

#[test]
fn reserved_bits_survive_set_and_clear_of_others() {
    let mut flags = 0u64;
    flags.set(RFlags::Reserved_1);
    flags.set(RFlags::Reserved_43);
    flags.set(RFlags::Zero);
    flags.clear(RFlags::Zero);
    flags.clear(RFlags::Carry);
    assert!(flags.is_set(RFlags::Reserved_1));
    assert!(flags.is_set(RFlags::Reserved_43));
    assert!(!flags.is_set(RFlags::Zero));
    assert_eq!(flags, (1 << 1) | (1 << 63));
}

#[test]
fn or_assign_sets_one_flag() {
    let mut flags = 0b100u64;
    flags |= RFlags::Trap;
    assert_eq!(flags, 0b1_0000_0100);
}
