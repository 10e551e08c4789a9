//! The machine: every register file, the flags, the two pointers, the
//! dispatch tables and the memory, owned by one value.

use crate::builders::MachineBuilder;
use crate::bytes::{lemma_overwrite_window, overwrite};
use crate::functions::{InterruptVector, SyscallVector};
use crate::memory::{ContiguousMemory, Fpu};
use crate::register_aliases::Alias;
use crate::registers::{lemma_file_size, Registers};
use crate::types::error::{SafetyResult, VmRuntimeError};
use crate::types::memory::ByteUnits;
use crate::utils::hex_dump;
use vstd::prelude::*;

verus! {

/// A virtual x86-64 machine. All of its memory is allocated when it is made.
/// Nothing in it is shared with another machine.
#[derive(Debug, Clone)]
pub struct X86Machine {
    /// 6 x 64-bit segment pointers, padded to 8 registers
    pub segment_pointers: Registers<64>,
    /// 8 x 64-bit MMX registers
    pub mmx_registers: Registers<64>,
    /// 16 x 64-bit general-purpose registers
    pub gp_registers: Registers<128>,
    /// 16 x 128-bit XMM registers
    pub xmm_registers: Registers<256>,
    /// 16 x 256-bit YMM registers
    pub ymm_registers: Registers<512>,
    /// 4 x 128-bit bounds registers
    pub bounds_registers: Registers<64>,
    /// 1 x 32-bit MXCSR register
    pub mxcsr_register: Registers<4>,
    /// The floating-point unit
    pub fpu: Fpu,
    /// The flags word (RFLAGS; its low half is EFLAGS)
    pub flags: u64,
    /// The instruction pointer (RIP)
    pub instruction_counter: u64,
    /// One past the lowest occupied byte of the stack, which grows downwards
    /// from the end of memory
    pub stack_pointer: u64,
    /// The interrupt handlers
    pub interrupts: InterruptVector,
    /// The syscall handlers
    pub syscalls: SyscallVector,
    /// The size of memory that the machine was asked for
    pub assigned_memory: ByteUnits,
    /// The memory itself
    pub memory: ContiguousMemory,
}

/// What is needed to push onto a stack that lives outside a machine: the
/// memory, the register file to read from, and the stack pointer.
pub struct MemWriteDto<'a, const N: usize> {
    pub mem: &'a mut ContiguousMemory,
    pub register: &'a Registers<N>,
    pub s_ptr: &'a mut u64,
}

/// Whether `len` bytes can be pushed onto a stack whose pointer is
/// `stack_pointer`, in a memory of `capacity` bytes: the pointer must lie
/// inside memory with at least `len` bytes below it.
pub open spec fn stack_verdict(len: nat, stack_pointer: u64, capacity: nat) -> Result<
    (),
    VmRuntimeError,
> {
    if len > stack_pointer || stack_pointer > capacity {
        Err(VmRuntimeError::OutOfBoundsError { address: stack_pointer })
    } else {
        Ok(())
    }
}

/// Whether the bytes under `alias` in `regs` can be pushed: the register file
/// must let the alias pass, and the stack must have room for its bytes.
pub open spec fn push_verdict<const N: usize>(
    regs: Registers<N>,
    alias: Alias,
    stack_pointer: u64,
    capacity: nat,
) -> Result<(), VmRuntimeError> {
    match regs.verdict(alias, alias.byte_len()) {
        Err(e) => Err(e),
        Ok(_) => stack_verdict(alias.byte_len(), stack_pointer, capacity),
    }
}

/// Whether an image of `len` bytes can be loaded into a machine that was
/// assigned `assigned` bytes and holds `capacity` bytes of memory.
pub open spec fn load_verdict(len: nat, assigned: nat, capacity: nat) -> Result<
    (),
    VmRuntimeError,
> {
    if assigned < len {
        Err(VmRuntimeError::OutOfMemoryError { allocated: assigned as u64, required: len as u64 })
    } else if capacity < len {
        Err(VmRuntimeError::OutOfBoundsError { address: len as u64 })
    } else {
        Ok(())
    }
}

impl X86Machine {
    /// The parts of the machine agree: memory has the size that was
    /// assigned, and the stack pointer lies inside it. A built machine is
    /// well formed, and every operation of the machine keeps it so.
    pub open spec fn wf(&self) -> bool {
        &&& self.assigned_memory.byte_count() == self.memory@.len()
        &&& self.stack_pointer <= self.memory@.len()
    }

    /// A builder with nothing set.
    pub fn builder() -> (b: MachineBuilder)
        ensures
            b == MachineBuilder::unset(),
    {
        MachineBuilder::new()
    }

    /// The general-purpose registers as a hex dump.
    pub fn dump_register_hex(&self) -> (out: String)
        ensures
            out@ == hex_dump(self.gp_registers@),
    {
        self.gp_registers.dump_hex()
    }

    /// Points the instruction counter at `ptr`.
    pub fn set_instruction_counter(&mut self, ptr: u64)
        ensures
            *final(self) == (X86Machine { instruction_counter: ptr, ..*old(self) }),
            old(self).wf() ==> final(self).wf(),
    {
        self.instruction_counter = ptr;
    }

    /// Writes `bytes` to the general-purpose registers through `alias`. The
    /// outcome is not reported: where the register file rejects the access,
    /// nothing changes.
    pub fn write_to_gp_registers(&mut self, alias: Alias, bytes: &[u8])
        requires
            old(self).gp_registers.policy_spec() is Unchecked ==> old(
                self,
            ).gp_registers.addressable(alias, bytes@.len()),
        ensures
            *final(self) == (X86Machine { gp_registers: final(self).gp_registers, ..*old(self) }),
            final(self).gp_registers.width_tag() == old(self).gp_registers.width_tag(),
            final(self).gp_registers.policy_spec() == old(self).gp_registers.policy_spec(),
            final(self).gp_registers@ == (match old(self).gp_registers.verdict(
                alias,
                bytes@.len(),
            ) {
                Ok(_) => overwrite(old(self).gp_registers@, alias.start_byte() as int, bytes@),
                Err(_) => old(self).gp_registers@,
            }),
            old(self).wf() ==> final(self).wf(),
    {
        let _ = self.gp_registers.write_bytes(alias, bytes);
    }

    /// Loads a binary image: it is copied to the bottom of memory and the
    /// instruction counter is pointed at its first byte. An image larger
    /// than the assigned memory is rejected, and so is one that the memory
    /// cannot hold; then nothing changes.
    pub fn load_binary(&mut self, data: &[u8]) -> (res: Result<(), VmRuntimeError>)
        ensures
            match load_verdict(
                data@.len(),
                old(self).assigned_memory.byte_count(),
                old(self).memory@.len(),
            ) {
                Ok(_) => res is Ok && *final(self) == (X86Machine {
                    memory: final(self).memory,
                    instruction_counter: 0,
                    ..*old(self)
                }) && final(self).memory@ == overwrite(old(self).memory@, 0, data@),
                Err(e) => res == Err::<(), VmRuntimeError>(e) && *final(self) == *old(self),
            },
            old(self).wf() ==> final(self).wf(),
    {
        let len = data.len() as u64;
        // An assigned size beyond what a `u64` holds is larger than any image.
        if let Some(assigned) = self.assigned_memory.checked_num_bytes() {
            if assigned < len {
                return Err(
                    VmRuntimeError::OutOfMemoryError { allocated: assigned, required: len },
                );
            }
        }
        self.memory.write(0, data)?;
        self.instruction_counter = 0;
        Ok(())
    }

    /// The bytes of the general-purpose registers under `alias`.
    pub fn read_register_bytes(&self, alias: &Alias) -> (res: SafetyResult<&[u8]>)
        requires
            self.gp_registers.policy_spec() is Unchecked ==> self.gp_registers.addressable(
                *alias,
                alias.byte_len(),
            ),
        ensures
            match self.gp_registers.verdict(*alias, alias.byte_len()) {
                Ok(_) => res is Ok && res->Ok_0@ == self.gp_registers@.subrange(
                    alias.start_byte() as int,
                    alias.end_byte() as int,
                ),
                Err(e) => res == Err::<&[u8], VmRuntimeError>(e),
            },
    {
        self.gp_registers.read_bytes(alias)
    }

    /// Pushes the bytes of a general-purpose register onto the stack: they
    /// are written to memory so that they end at the stack pointer, and the
    /// stack pointer moves down by their number. Afterwards the bytes can be
    /// read at the new stack pointer. Where the register file rejects the
    /// alias or the stack has no room, nothing changes.
    pub fn push_gp_register_to_stack(&mut self, register: Alias) -> (res: SafetyResult<()>)
        requires
            old(self).gp_registers.policy_spec() is Unchecked ==> old(
                self,
            ).gp_registers.addressable(register, register.byte_len()),
        ensures
            match push_verdict(
                old(self).gp_registers,
                register,
                old(self).stack_pointer,
                old(self).memory@.len(),
            ) {
                Ok(_) => {
                    let pushed = old(self).gp_registers@.subrange(
                        register.start_byte() as int,
                        register.end_byte() as int,
                    );
                    &&& res is Ok
                    &&& *final(self) == (X86Machine {
                        memory: final(self).memory,
                        stack_pointer: final(self).stack_pointer,
                        ..*old(self)
                    })
                    &&& final(self).stack_pointer == old(self).stack_pointer - register.byte_len()
                    &&& final(self).memory@ == overwrite(
                        old(self).memory@,
                        final(self).stack_pointer as int,
                        pushed,
                    )
                    &&& final(self).memory@.subrange(
                        final(self).stack_pointer as int,
                        old(self).stack_pointer as int,
                    ) == pushed
                },
                Err(e) => res == Err::<(), VmRuntimeError>(e) && *final(self) == *old(self),
            },
            old(self).wf() ==> final(self).wf(),
    {
        let dto = MemWriteDto {
            mem: &mut self.memory,
            register: &self.gp_registers,
            s_ptr: &mut self.stack_pointer,
        };
        proof {
            lemma_file_size(self.gp_registers);
        }
        Self::write_bytes_to_stack_memory(dto, &register)
    }

    /// Pushes `bytes` onto the stack: they are written to memory so that
    /// they end at the stack pointer, and the stack pointer moves down by
    /// their number. Where the stack has no room, nothing changes.
    pub fn write_bytes_to_stack(&mut self, bytes: &[u8]) -> (res: SafetyResult<()>)
        ensures
            match stack_verdict(bytes@.len(), old(self).stack_pointer, old(self).memory@.len()) {
                Ok(_) => {
                    &&& res is Ok
                    &&& *final(self) == (X86Machine {
                        memory: final(self).memory,
                        stack_pointer: final(self).stack_pointer,
                        ..*old(self)
                    })
                    &&& final(self).stack_pointer == old(self).stack_pointer - bytes@.len()
                    &&& final(self).memory@ == overwrite(
                        old(self).memory@,
                        final(self).stack_pointer as int,
                        bytes@,
                    )
                    &&& final(self).memory@.subrange(
                        final(self).stack_pointer as int,
                        old(self).stack_pointer as int,
                    ) == bytes@
                },
                Err(e) => res == Err::<(), VmRuntimeError>(e) && *final(self) == *old(self),
            },
            old(self).wf() ==> final(self).wf(),
    {
        let sp = self.stack_pointer;
        let l = bytes.len() as u64;
        if l > sp || sp > self.memory.capacity() as u64 {
            return Err(VmRuntimeError::OutOfBoundsError { address: sp });
        }
        let invert_start = sp - l;
        proof {
            lemma_overwrite_window(self.memory@, invert_start as int, bytes@);
        }
        self.memory.write(invert_start as usize, bytes)?;
        self.stack_pointer = invert_start;
        Ok(())
    }

    /// Pushes the bytes of a register onto a stack given by its parts: the
    /// bytes under `alias` are read from the register file, written to
    /// memory so that they end at the stack pointer, and the stack pointer
    /// moves down by their number. Where the register file rejects the alias
    /// or the stack has no room, nothing changes.
    pub fn write_bytes_to_stack_memory<const N: usize>(d: MemWriteDto<N>, alias: &Alias) -> (res:
        SafetyResult<()>)
        requires
            d.register.policy_spec() is Unchecked ==> d.register.addressable(
                *alias,
                alias.byte_len(),
            ),
        ensures
            match push_verdict(*d.register, *alias, *old(d.s_ptr), old(d.mem)@.len()) {
                Ok(_) => {
                    let pushed = d.register@.subrange(
                        alias.start_byte() as int,
                        alias.end_byte() as int,
                    );
                    &&& res is Ok
                    &&& *final(d.s_ptr) == *old(d.s_ptr) - alias.byte_len()
                    &&& final(d.mem)@ == overwrite(old(d.mem)@, *final(d.s_ptr) as int, pushed)
                    &&& final(d.mem)@.subrange(*final(d.s_ptr) as int, *old(d.s_ptr) as int)
                        == pushed
                },
                Err(e) => {
                    &&& res == Err::<(), VmRuntimeError>(e)
                    &&& *final(d.s_ptr) == *old(d.s_ptr)
                    &&& *final(d.mem) == *old(d.mem)
                },
            },
    {
        let mem = d.mem;
        let register = d.register;
        let ptr = d.s_ptr;
        proof {
            lemma_file_size(*register);
        }
        let bytes = register.read_bytes(alias)?;
        let sp = *ptr;
        let l = bytes.len() as u64;
        if l > sp || sp > mem.capacity() as u64 {
            return Err(VmRuntimeError::OutOfBoundsError { address: sp });
        }
        let invert_start = sp - l;
        proof {
            lemma_overwrite_window(mem@, invert_start as int, bytes@);
        }
        mem.write(invert_start as usize, bytes)?;
        *ptr = invert_start;
        Ok(())
    }
}

} // verus!
