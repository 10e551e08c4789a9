use lib_x86::builders::{MachineBuilder, MachineOptions};
use lib_x86::functions::{InterruptVector, Intrinsic, SyscallVector, SystemFunction};
use lib_x86::register_aliases::Alias;
use lib_x86::registers::RegisterWidth;
use lib_x86::types::error::VmRuntimeError;
use lib_x86::types::memory::ByteUnits;
use lib_x86::types::policy::ValidationPolicy;
use lib_x86::x86::{MemWriteDto, X86Machine};

#[test]
fn machine_builder_works() {
    let machine = MachineOptions::builder()
        .memory(ByteUnits::Bytes(512))
        .build_machine();

    println!("{:?}", machine);
}

fn test_intrinsic(machine: &mut X86Machine) -> () {
    println!(
        "test_intrinsic. machine has bytes: {}",
        machine.assigned_memory.num_bytes()
    );
}

#[test]
fn can_convert_function() {
    let mut machine = X86Machine::builder()
        .memory(ByteUnits::KibiBytes(512))
        .build_with_defaults();

    let intrinsic = Intrinsic(test_intrinsic);

    (intrinsic.0)(&mut machine);
}

#[test]
fn built_machine_has_not_run_yet() {
    let mut machine = MachineOptions::builder()
        .memory(ByteUnits::Bytes(512))
        .build_with_defaults();
    assert_eq!(machine.assigned_memory.num_bytes(), 512);
    assert_eq!(machine.flags, 0);
    assert_eq!(machine.instruction_counter, 0);
    assert_eq!(machine.stack_pointer, 512);
    assert_eq!(machine.memory.capacity(), 512);
    assert_eq!(machine.memory.read(0, 512).unwrap(), &[0u8; 512][..]);
    assert_eq!(*machine.gp_registers, [0u8; 128]);
    assert_eq!(*machine.segment_pointers, [0u8; 64]);
    assert_eq!(*machine.mmx_registers, [0u8; 64]);
    assert_eq!(*machine.xmm_registers, [0u8; 256]);
    assert_eq!(*machine.ymm_registers, [0u8; 512]);
    assert_eq!(*machine.bounds_registers, [0u8; 64]);
    assert_eq!(*machine.mxcsr_register, [0u8; 4]);
    assert_eq!(*machine.fpu.registers, [0u8; 80]);
    assert_eq!(machine.gp_registers.canonical_width(), 16);
    assert_eq!(machine.gp_registers.policy(), ValidationPolicy::Checked);

    let before = format!("{:?}", machine);
    for number in 0..255 {
        let slot = machine.interrupts.get(number);
        assert!(matches!(slot, SystemFunction::Unimplemented));
        slot.call(&mut machine);
    }
    for number in 0..1024 {
        let slot = machine.syscalls.get(number);
        assert!(matches!(slot, SystemFunction::Unimplemented));
        slot.call(&mut machine);
    }
    assert_eq!(format!("{:?}", machine), before);
}

#[test]
fn default_memory_is_one_gibibyte() {
    let machine = MachineBuilder::new().build_with_defaults();
    assert_eq!(machine.assigned_memory.num_bytes(), 1 << 30);
    assert_eq!(machine.memory.capacity(), 1 << 30);
    assert_eq!(machine.stack_pointer, 1 << 30);
}

#[test]
fn try_build_names_exactly_what_is_missing() {
    let err = MachineBuilder::new().try_build().unwrap_err();
    assert!(err.missing_memory && err.missing_registers && err.missing_interrupts);

    let err = MachineBuilder::new().memory(ByteUnits::Bytes(64)).try_build().unwrap_err();
    assert!(!err.missing_memory && err.missing_registers && err.missing_interrupts);

    let err = MachineBuilder::new().syscalls(SyscallVector::new()).try_build().unwrap_err();
    assert!(err.missing_memory && !err.missing_registers && err.missing_interrupts);

    let err = MachineBuilder::new()
        .memory(ByteUnits::Bytes(64))
        .interrupts(InterruptVector::new())
        .try_build()
        .unwrap_err();
    assert!(!err.missing_memory && err.missing_registers && !err.missing_interrupts);

    let machine = MachineBuilder::new()
        .memory(ByteUnits::KiloBytes(1))
        .syscalls(SyscallVector::new())
        .interrupts(InterruptVector::new())
        .try_build()
        .unwrap();
    assert_eq!(machine.memory.capacity(), 1000);
    assert_eq!(machine.stack_pointer, 1000);
}

#[test]
fn build_takes_the_tables_it_was_given() {
    let mut interrupts = InterruptVector::new();
    interrupts.set(3, SystemFunction::Pointer(0x4000));
    let mut syscalls = SyscallVector::new();
    syscalls.set(1023, SystemFunction::Pointer(0x8000));
    let machine = MachineBuilder::new()
        .memory(ByteUnits::Bytes(128))
        .syscalls(syscalls)
        .interrupts(interrupts)
        .policy(ValidationPolicy::Unchecked)
        .build();
    assert!(matches!(machine.interrupts.get(3), SystemFunction::Pointer(0x4000)));
    assert!(matches!(machine.interrupts.get(4), SystemFunction::Unimplemented));
    assert!(matches!(machine.syscalls.get(1023), SystemFunction::Pointer(0x8000)));
    assert!(matches!(machine.syscalls.get(0), SystemFunction::Unimplemented));
    assert_eq!(machine.gp_registers.policy(), ValidationPolicy::Unchecked);
    assert_eq!(machine.fpu.tag_register.policy(), ValidationPolicy::Unchecked);

    let options = MachineOptions {
        memory: ByteUnits::Bytes(1),
        syscalls: SyscallVector::new(),
        interrupts: InterruptVector::new(),
        policy: ValidationPolicy::Checked,
    };
    let machine = options.memory(ByteUnits::Bytes(96)).interrupts(interrupts).build();
    assert_eq!(machine.stack_pointer, 96);
    assert!(matches!(machine.interrupts.get(3), SystemFunction::Pointer(0x4000)));
}

#[test]
fn a_guest_handler_only_moves_the_instruction_counter() {
    let mut machine = MachineBuilder::new().memory(ByteUnits::Bytes(64)).build_with_defaults();
    machine.flags = 0b101;
    let before_sp = machine.stack_pointer;
    SystemFunction::Pointer(0xDEAD_BEEF).call(&mut machine);
    assert_eq!(machine.instruction_counter, 0xDEAD_BEEF);
    assert_eq!(machine.flags, 0b101);
    assert_eq!(machine.stack_pointer, before_sp);
    assert_eq!(machine.memory.read(0, 64).unwrap(), &[0u8; 64]);
    SystemFunction::default().call(&mut machine);
    assert_eq!(machine.instruction_counter, 0xDEAD_BEEF);
}

fn raise_carry(machine: &mut X86Machine) {
    machine.flags |= 1;
    machine.set_instruction_counter(7);
}

#[test]
fn a_host_handler_runs_on_the_machine() {
    let mut machine = MachineBuilder::new().memory(ByteUnits::Bytes(64)).build_with_defaults();
    let mut syscalls = SyscallVector::new();
    syscalls.set(60, SystemFunction::IntrinsicFunction(Intrinsic(raise_carry)));
    machine.syscalls = syscalls;
    let handler = machine.syscalls.get(60);
    handler.call(&mut machine);
    assert_eq!(machine.flags, 1);
    assert_eq!(machine.instruction_counter, 7);
    let copy = handler.clone();
    machine.flags = 0;
    copy.call(&mut machine);
    assert_eq!(machine.flags, 1);
}

#[test]
fn push_moves_the_stack_pointer_down_by_the_width_of_the_register() {
    let mut machine = MachineBuilder::new().memory(ByteUnits::Bytes(512)).build_with_defaults();
    machine.write_to_gp_registers(Alias { width: 16, offset: 3 }, &[0x34, 0x12]);
    assert_eq!(machine.gp_registers.read_u16(Alias { width: 16, offset: 3 }).unwrap(), 0x1234);

    machine.push_gp_register_to_stack(Alias { width: 16, offset: 3 }).unwrap();
    assert_eq!(machine.stack_pointer, 510);
    assert_eq!(machine.memory.read(510, 2).unwrap(), &[0x34, 0x12]);
    assert_eq!(machine.memory.read(0, 510).unwrap(), &[0u8; 510][..]);

    machine.write_to_gp_registers(Alias { width: 8, offset: 0 }, &[0xAA]);
    machine.push_gp_register_to_stack(Alias { width: 8, offset: 0 }).unwrap();
    assert_eq!(machine.stack_pointer, 509);
    assert_eq!(machine.memory.read(509, 3).unwrap(), &[0xAA, 0x34, 0x12]);
    assert_eq!(machine.read_register_bytes(&Alias { width: 8, offset: 0 }).unwrap(), &[0xAA]);
}

#[test]
fn push_of_a_rejected_alias_changes_nothing() {
    let mut machine = MachineBuilder::new().memory(ByteUnits::Bytes(32)).build_with_defaults();
    // the general-purpose file of a built machine has 16-bit registers
    let res = machine.push_gp_register_to_stack(Alias { width: 64, offset: 0 });
    assert!(matches!(
        res,
        Err(VmRuntimeError::RegisterAliasOverrun { offset: 0, width: 64, alignment: 16 })
    ));
    let res = machine.push_gp_register_to_stack(Alias { width: 8, offset: 1 });
    assert!(matches!(res, Err(VmRuntimeError::InvalidAlias { offset: 1, width: 8 })));
    assert_eq!(machine.stack_pointer, 32);
    assert_eq!(machine.memory.read(0, 32).unwrap(), &[0u8; 32]);
    machine.write_to_gp_registers(Alias { width: 64, offset: 0 }, &[1; 8]);
    assert_eq!(*machine.gp_registers, [0u8; 128]);
}

#[test]
fn push_onto_a_full_stack_is_out_of_bounds() {
    let mut machine = MachineBuilder::new().memory(ByteUnits::Bytes(3)).build_with_defaults();
    machine.write_to_gp_registers(Alias { width: 16, offset: 0 }, &[0xCD, 0xAB]);
    machine.push_gp_register_to_stack(Alias { width: 16, offset: 0 }).unwrap();
    assert_eq!(machine.stack_pointer, 1);
    let res = machine.push_gp_register_to_stack(Alias { width: 16, offset: 0 });
    assert!(matches!(res, Err(VmRuntimeError::OutOfBoundsError { address: 1 })));
    assert_eq!(machine.stack_pointer, 1);
    assert_eq!(machine.memory.read(0, 3).unwrap(), &[0, 0xCD, 0xAB]);

    machine.stack_pointer = 4;
    let res = machine.write_bytes_to_stack(&[9]);
    assert!(matches!(res, Err(VmRuntimeError::OutOfBoundsError { address: 4 })));
    assert_eq!(machine.stack_pointer, 4);
    assert_eq!(machine.memory.read(0, 3).unwrap(), &[0, 0xCD, 0xAB]);
}

#[test]
fn bytes_are_pushed_downwards() {
    let mut machine = MachineBuilder::new().memory(ByteUnits::Bytes(16)).build_with_defaults();
    machine.write_bytes_to_stack(&[1, 2, 3, 4]).unwrap();
    assert_eq!(machine.stack_pointer, 12);
    machine.write_bytes_to_stack(&[5, 6]).unwrap();
    assert_eq!(machine.stack_pointer, 10);
    machine.write_bytes_to_stack(&[]).unwrap();
    assert_eq!(machine.stack_pointer, 10);
    assert_eq!(machine.memory.read(10, 6).unwrap(), &[5, 6, 1, 2, 3, 4]);
    assert_eq!(machine.memory.read(0, 10).unwrap(), &[0u8; 10]);
    let res = machine.write_bytes_to_stack(&[0; 11]);
    assert!(matches!(res, Err(VmRuntimeError::OutOfBoundsError { address: 10 })));
    assert!(machine.write_bytes_to_stack(&[7; 10]).is_ok());
    assert_eq!(machine.stack_pointer, 0);
}

#[test]
fn a_stack_outside_a_machine_is_pushed_through_its_parts() {
    let mut mem = lib_x86::memory::ContiguousMemory::with_size(&ByteUnits::Bytes(8));
    let mut regs = lib_x86::registers::Registers::<8>::new(RegisterWidth::Fixed(32));
    regs.write_u32(Alias { width: 32, offset: 1 }, 0xCAFE_F00D).unwrap();
    let mut sp = 8u64;
    let dto = MemWriteDto { mem: &mut mem, register: &regs, s_ptr: &mut sp };
    X86Machine::write_bytes_to_stack_memory(dto, &Alias { width: 32, offset: 1 }).unwrap();
    assert_eq!(sp, 4);
    assert_eq!(mem.read(0, 8).unwrap(), &[0, 0, 0, 0, 0x0D, 0xF0, 0xFE, 0xCA]);
    let dto = MemWriteDto { mem: &mut mem, register: &regs, s_ptr: &mut sp };
    let res = X86Machine::write_bytes_to_stack_memory(dto, &Alias { width: 16, offset: 1 });
    assert!(matches!(res, Err(VmRuntimeError::InvalidAlias { offset: 1, width: 16 })));
    assert_eq!(sp, 4);
}

#[test]
fn an_oversized_binary_is_out_of_memory() {
    let mut machine = MachineBuilder::new().memory(ByteUnits::Bytes(8)).build_with_defaults();
    machine.instruction_counter = 5;
    let res = machine.load_binary(&[0x90; 9]);
    assert!(matches!(res, Err(VmRuntimeError::OutOfMemoryError { allocated: 8, required: 9 })));
    assert_eq!(machine.instruction_counter, 5);
    assert_eq!(machine.memory.read(0, 8).unwrap(), &[0u8; 8]);
}

#[test]
fn a_binary_is_loaded_at_the_bottom_of_memory() {
    let mut machine = MachineBuilder::new().memory(ByteUnits::Bytes(8)).build_with_defaults();
    machine.instruction_counter = 5;
    machine.load_binary(&[0x48, 0x31, 0xC0]).unwrap();
    assert_eq!(machine.instruction_counter, 0);
    assert_eq!(machine.stack_pointer, 8);
    assert_eq!(machine.memory.read(0, 8).unwrap(), &[0x48, 0x31, 0xC0, 0, 0, 0, 0, 0]);
    machine.load_binary(&[0xFF; 8]).unwrap();
    assert_eq!(machine.memory.read(0, 8).unwrap(), &[0xFF; 8]);
}

#[test]
fn register_dump_of_a_machine_shows_the_general_purpose_file() {
    let mut machine = MachineBuilder::new().memory(ByteUnits::Bytes(8)).build_with_defaults();
    machine.write_to_gp_registers(Alias { width: 16, offset: 0 }, &[0xEF, 0xBE]);
    let dump = machine.dump_register_hex();
    assert!(dump.starts_with("[\n\tEF BE 00 00"));
    assert_eq!(dump.lines().count(), 4);
    assert!(dump.ends_with("00\n]"));
}

#[test]
fn an_incomplete_builder_reports_whatever_size_it_was_given() {
    let err = MachineBuilder::new()
        .memory(ByteUnits::GibiBytes(u64::MAX))
        .try_build()
        .unwrap_err();
    assert!(!err.missing_memory && err.missing_registers && err.missing_interrupts);
}
