//! Assembling a machine from its options.

use crate::bytes::zeros;
use crate::functions::{
    lemma_table_sizes, InterruptVector, SyscallVector, INTERRUPT_SLOTS, SYSCALL_SLOTS,
};
use crate::memory::{ContiguousMemory, Fpu};
use crate::registers::{RegisterWidth, Registers};
use crate::types::error::VmBuildError;
use crate::types::memory::ByteUnits;
use crate::types::policy::ValidationPolicy;
use crate::x86::X86Machine;
use vstd::prelude::*;

verus! {

/// A complete set of options for a machine.
pub struct MachineOptions {
    /// The size of the flat address space
    pub memory: ByteUnits,
    /// The syscall handlers
    pub syscalls: SyscallVector,
    /// The interrupt handlers
    pub interrupts: InterruptVector,
    /// How the register files of the machine treat a malformed access
    pub policy: ValidationPolicy,
}

/// Options for a machine while they are gathered: each may still be unset.
pub struct MachineBuilder {
    pub memory: Option<ByteUnits>,
    pub syscalls: Option<SyscallVector>,
    pub interrupts: Option<InterruptVector>,
    /// Unlike the others this one always has a value; it starts as `Checked`.
    pub policy: ValidationPolicy,
}

/// The memory size of a machine whose builder was given none: 1 GiB.
pub open spec fn default_memory() -> ByteUnits {
    ByteUnits::GibiBytes(1)
}

impl X86Machine {
    /// The machine is as `options` ask and has not run yet: every register
    /// file is zeroed, flags and instruction counter are zero, memory is
    /// zeroed and of the size asked for, the stack pointer is at the top of
    /// memory, and the tables are those of the options.
    pub open spec fn fresh_from(&self, options: MachineOptions) -> bool {
        &&& self.segment_pointers.pristine(options.policy)
        &&& self.mmx_registers.pristine(options.policy)
        &&& self.gp_registers.pristine(options.policy)
        &&& self.xmm_registers.pristine(options.policy)
        &&& self.ymm_registers.pristine(options.policy)
        &&& self.bounds_registers.pristine(options.policy)
        &&& self.mxcsr_register.pristine(options.policy)
        &&& self.fpu.pristine(options.policy)
        &&& self.flags == 0
        &&& self.instruction_counter == 0
        &&& self.stack_pointer == options.memory.byte_count()
        &&& self.interrupts == options.interrupts
        &&& self.syscalls == options.syscalls
        &&& self.assigned_memory == options.memory
        &&& self.memory@ == zeros(options.memory.byte_count())
    }
}

impl MachineOptions {
    /// A builder with nothing set.
    pub fn builder() -> (b: MachineBuilder)
        ensures
            b == MachineBuilder::unset(),
    {
        MachineBuilder {
            memory: None,
            syscalls: None,
            interrupts: None,
            policy: ValidationPolicy::Checked,
        }
    }

    /// The same options with another memory size.
    pub fn memory(self, memory: ByteUnits) -> (o: Self)
        ensures
            o == (MachineOptions { memory, ..self }),
    {
        MachineOptions { memory, ..self }
    }

    /// The same options with other syscall handlers.
    pub fn syscalls(self, syscalls: SyscallVector) -> (o: Self)
        ensures
            o == (MachineOptions { syscalls, ..self }),
    {
        MachineOptions { syscalls, ..self }
    }

    /// The same options with other interrupt handlers.
    pub fn interrupts(self, interrupts: InterruptVector) -> (o: Self)
        ensures
            o == (MachineOptions { interrupts, ..self }),
    {
        MachineOptions { interrupts, ..self }
    }

    /// The same options with another validation policy.
    pub fn policy(self, policy: ValidationPolicy) -> (o: Self)
        ensures
            o == (MachineOptions { policy, ..self }),
    {
        MachineOptions { policy, ..self }
    }

    /// The machine that the options describe. The memory must be of a size
    /// that this host can address.
    pub fn build(self) -> (machine: X86Machine)
        requires
            self.memory.byte_count() <= usize::MAX,
        ensures
            machine.fresh_from(self),
            machine.wf(),
    {
        let mem = ContiguousMemory::with_size(&self.memory);
        let sp = mem.capacity();
        let policy = self.policy;
        X86Machine {
            mmx_registers: Registers::with_policy(RegisterWidth::Fixed(16), policy),
            segment_pointers: Registers::with_policy(RegisterWidth::Fixed(16), policy),
            gp_registers: Registers::with_policy(RegisterWidth::Fixed(16), policy),
            xmm_registers: Registers::with_policy(RegisterWidth::Fixed(16), policy),
            ymm_registers: Registers::with_policy(RegisterWidth::Fixed(16), policy),
            bounds_registers: Registers::with_policy(RegisterWidth::Fixed(16), policy),
            mxcsr_register: Registers::with_policy(RegisterWidth::Fixed(16), policy),
            fpu: Fpu::with_policy(policy),
            flags: 0,
            instruction_counter: 0,
            stack_pointer: sp as u64,
            interrupts: self.interrupts,
            syscalls: self.syscalls,
            memory: mem,
            assigned_memory: self.memory,
        }
    }
}

impl MachineBuilder {
    /// The builder that nothing was given to.
    pub open spec fn unset() -> MachineBuilder {
        MachineBuilder {
            memory: None,
            syscalls: None,
            interrupts: None,
            policy: ValidationPolicy::Checked,
        }
    }

    /// Memory, syscall handlers and interrupt handlers have all been given.
    pub open spec fn complete(&self) -> bool {
        self.memory is Some && self.syscalls is Some && self.interrupts is Some
    }

    /// The memory size that was given, if any, is one that this host can
    /// address.
    pub open spec fn memory_fits(&self) -> bool {
        self.memory matches Some(m) ==> m.byte_count() <= usize::MAX
    }

    /// The options that the builder stands for once every unset part has
    /// its default: 1 GiB of memory, and tables without handlers.
    pub open spec fn with_defaults(&self) -> MachineOptions {
        MachineOptions {
            memory: match self.memory {
                Some(m) => m,
                None => default_memory(),
            },
            syscalls: match self.syscalls {
                Some(s) => s,
                None => SyscallVector::unset(),
            },
            interrupts: match self.interrupts {
                Some(i) => i,
                None => InterruptVector::unset(),
            },
            policy: self.policy,
        }
    }

    /// Which of the parts that have no default were never given.
    pub open spec fn missing(&self) -> VmBuildError {
        VmBuildError {
            missing_memory: self.memory is None,
            missing_registers: self.syscalls is None,
            missing_interrupts: self.interrupts is None,
        }
    }

    /// A builder with nothing set.
    pub fn new() -> (b: MachineBuilder)
        ensures
            b == MachineBuilder::unset(),
    {
        MachineBuilder {
            memory: None,
            syscalls: None,
            interrupts: None,
            policy: ValidationPolicy::Checked,
        }
    }

    /// Builds the machine, with the default in place of every part that was
    /// not given: 1 GiB of memory, and tables without handlers. This never
    /// fails.
    pub fn build_with_defaults(self) -> (machine: X86Machine)
        requires
            self.memory_fits(),
        ensures
            machine.fresh_from(self.with_defaults()),
            machine.wf(),
    {
        let memory = match self.memory {
            Some(m) => m,
            None => ByteUnits::GibiBytes(1),
        };
        let syscalls = match self.syscalls {
            Some(s) => s,
            None => empty_syscalls(),
        };
        let interrupts = match self.interrupts {
            Some(i) => i,
            None => empty_interrupts(),
        };
        MachineOptions { memory, syscalls, interrupts, policy: self.policy }.build()
    }

    /// Builds the machine from a builder that was given every part. Meant
    /// for callers that know the builder to be complete; the others use
    /// `try_build` or `build_with_defaults`.
    pub fn build(self) -> (machine: X86Machine)
        requires
            self.complete(),
            self.memory_fits(),
        ensures
            machine.fresh_from(self.with_defaults()),
            machine.wf(),
    {
        MachineOptions {
            memory: self.memory.unwrap(),
            syscalls: self.syscalls.unwrap(),
            interrupts: self.interrupts.unwrap(),
            policy: self.policy,
        }.build()
    }

    /// Builds the machine if the builder was given every part, and says
    /// otherwise which parts are missing; then nothing is built.
    pub fn try_build(self) -> (res: Result<X86Machine, VmBuildError>)
        requires
            self.complete() ==> self.memory_fits(),
        ensures
            self.complete() ==> res is Ok && res->Ok_0.fresh_from(self.with_defaults())
                && res->Ok_0.wf(),
            !self.complete() ==> res == Err::<X86Machine, VmBuildError>(self.missing()),
    {
        let mut error = VmBuildError {
            missing_memory: false,
            missing_registers: false,
            missing_interrupts: false,
        };
        if self.memory.is_none() {
            error.missing_memory = true;
        }
        if self.syscalls.is_none() {
            error.missing_registers = true;
        }
        if self.interrupts.is_none() {
            error.missing_interrupts = true;
        }
        match (self.memory, self.syscalls, self.interrupts) {
            (Some(memory), Some(syscalls), Some(interrupts)) => Ok(
                MachineOptions { memory, syscalls, interrupts, policy: self.policy }.build(),
            ),
            _ => Err(error),
        }
    }

    /// Builds the machine, with the default in place of every part that was
    /// not given. The same as `build_with_defaults`.
    pub fn build_machine(self) -> (machine: X86Machine)
        requires
            self.memory_fits(),
        ensures
            machine.fresh_from(self.with_defaults()),
            machine.wf(),
    {
        self.build_with_defaults()
    }

    /// The same builder with this memory size.
    pub fn memory(self, memory: ByteUnits) -> (b: Self)
        ensures
            b == (MachineBuilder { memory: Some(memory), ..self }),
    {
        MachineBuilder { memory: Some(memory), ..self }
    }

    /// The same builder with these syscall handlers.
    pub fn syscalls(self, syscalls: SyscallVector) -> (b: Self)
        ensures
            b == (MachineBuilder { syscalls: Some(syscalls), ..self }),
    {
        MachineBuilder { syscalls: Some(syscalls), ..self }
    }

    /// The same builder with these interrupt handlers.
    pub fn interrupts(self, interrupts: InterruptVector) -> (b: Self)
        ensures
            b == (MachineBuilder { interrupts: Some(interrupts), ..self }),
    {
        MachineBuilder { interrupts: Some(interrupts), ..self }
    }

    /// The same builder with this validation policy.
    pub fn policy(self, policy: ValidationPolicy) -> (b: Self)
        ensures
            b == (MachineBuilder { policy, ..self }),
    {
        MachineBuilder { policy, ..self }
    }
}

impl Default for MachineBuilder {
    fn default() -> (b: Self)
        ensures
            b == MachineBuilder::unset(),
    {
        MachineBuilder::new()
    }
}

/// A machine built from a builder that was given no tables dispatches every
/// interrupt and every syscall to an empty slot.
pub proof fn lemma_default_tables_hold_no_handler(builder: MachineBuilder, machine: X86Machine)
    requires
        builder.syscalls is None,
        builder.interrupts is None,
        machine.fresh_from(builder.with_defaults()),
    ensures
        machine.interrupts@.len() == INTERRUPT_SLOTS,
        machine.syscalls@.len() == SYSCALL_SLOTS,
        forall|number: int|
            0 <= number < INTERRUPT_SLOTS ==> machine.interrupts@[number] is Unimplemented,
        forall|number: int| 0 <= number < SYSCALL_SLOTS ==> machine.syscalls@[number] is Unimplemented,
{
    lemma_table_sizes(machine.interrupts, machine.syscalls);
}

/// A syscall table without handlers.
pub fn empty_syscalls() -> (table: SyscallVector)
    ensures
        table == SyscallVector::unset(),
{
    SyscallVector::new()
}

/// An interrupt table without handlers.
pub fn empty_interrupts() -> (table: InterruptVector)
    ensures
        table == InterruptVector::unset(),
{
    InterruptVector::new()
}

} // verus!
