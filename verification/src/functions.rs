//! Handlers of interrupts and syscalls, and the tables that hold them.

use crate::x86::X86Machine;
use vstd::prelude::*;

verus! {

/// A handler that runs on the host instead of in guest code, so that an
/// interrupt or a syscall can be implemented without guest instructions.
///
/// It holds a plain function that takes the machine by exclusive reference.
/// The verifier has no model of function pointers, so the type is opaque to
/// it: nothing is known of a handler but that it can be called.
#[verifier::external_body]
#[derive(Debug)]
pub struct Intrinsic(pub fn(&mut X86Machine) -> ());

impl Clone for Intrinsic {
    /// A handler that points at the same host function.
    fn clone(&self) -> (copy: Self)
        ensures
            copy == *self,
    {
        *self
    }
}

impl Copy for Intrinsic {

}

impl Intrinsic {
    /// Calls the host function with the machine. The handler may do to the
    /// machine whatever its public interface allows, so nothing is promised
    /// of the machine afterwards.
    #[verifier::external_body]
    fn invoke(&self, machine: &mut X86Machine) {
        (self.0)(machine)
    }
}

/// What stands in a slot of a dispatch table: nothing, a handler on the
/// host, or the address of a handler in guest memory.
#[derive(Debug, Copy, Clone)]
pub enum SystemFunction {
    /// No handler is installed. Calling it does nothing.
    Unimplemented,
    /// A handler compiled into the host.
    IntrinsicFunction(Intrinsic),
    /// A handler loaded with the guest binary, at this address.
    Pointer(u64),
}

impl Default for SystemFunction {
    fn default() -> (f: Self)
        ensures
            f == SystemFunction::Unimplemented,
    {
        SystemFunction::Unimplemented
    }
}

impl SystemFunction {
    /// Dispatches to the handler. An empty slot leaves the machine as it is.
    /// A guest handler is entered by pointing the instruction counter at it:
    /// no instruction runs here, and nothing else changes. A host handler is
    /// called with the machine; it answers for what it does to the machine,
    /// and for returning at all.
    pub fn call(&self, machine: &mut X86Machine)
        ensures
            *self is Unimplemented ==> *final(machine) == *old(machine),
            *self matches SystemFunction::Pointer(addr) ==> *final(machine) == (X86Machine {
                instruction_counter: addr,
                ..*old(machine)
            }),
            !(*self is IntrinsicFunction) && old(machine).wf() ==> final(machine).wf(),
    {
        match self {
            SystemFunction::Unimplemented => {},
            SystemFunction::IntrinsicFunction(handler) => {
                handler.invoke(machine);
            },
            SystemFunction::Pointer(addr) => {
                machine.set_instruction_counter(*addr);
            },
        }
    }
}

/// The number of interrupt slots.
pub const INTERRUPT_SLOTS: usize = 255;

/// The number of syscall slots.
pub const SYSCALL_SLOTS: usize = 1024;

/// The interrupt handlers of a machine, one slot per interrupt number.
#[derive(Debug, Clone, Copy)]
pub struct InterruptVector(pub(crate) [SystemFunction; 255]);

/// The syscall handlers of a machine, one slot per syscall number.
#[derive(Debug, Clone, Copy)]
pub struct SyscallVector(pub(crate) [SystemFunction; 1024]);

impl View for InterruptVector {
    type V = Seq<SystemFunction>;

    /// The slots in the order of their numbers.
    closed spec fn view(&self) -> Seq<SystemFunction> {
        self.0@
    }
}

impl View for SyscallVector {
    type V = Seq<SystemFunction>;

    /// The slots in the order of their numbers.
    closed spec fn view(&self) -> Seq<SystemFunction> {
        self.0@
    }
}

/// `count` slots with no handler in any of them.
pub open spec fn empty_slots(count: nat) -> Seq<SystemFunction> {
    Seq::new(count, |i: int| SystemFunction::Unimplemented)
}

impl InterruptVector {
    /// The table with no handler in any slot.
    pub closed spec fn unset() -> Self {
        InterruptVector(
            vstd::array::spec_array_fill_for_copy_type::<SystemFunction, 255>(
                SystemFunction::Unimplemented,
            ),
        )
    }

    /// A table with no handler in any slot.
    pub fn new() -> (table: Self)
        ensures
            table == Self::unset(),
            table@ == empty_slots(INTERRUPT_SLOTS as nat),
    {
        let table = InterruptVector([SystemFunction::Unimplemented;255]);
        assert(table@ =~= empty_slots(INTERRUPT_SLOTS as nat));
        table
    }

    /// The handler of interrupt `number`. Numbers from 255 on have no slot:
    /// whoever decodes an interrupt number validates it before it gets here.
    pub fn get(&self, number: usize) -> (f: SystemFunction)
        requires
            number < INTERRUPT_SLOTS,
        ensures
            f == self@[number as int],
    {
        self.0[number]
    }

    /// Installs `f` as the handler of interrupt `number`.
    pub fn set(&mut self, number: usize, f: SystemFunction)
        requires
            number < INTERRUPT_SLOTS,
        ensures
            final(self)@ == old(self)@.update(number as int, f),
    {
        self.0[number] = f;
    }
}

impl SyscallVector {
    /// The table with no handler in any slot.
    pub closed spec fn unset() -> Self {
        SyscallVector(
            vstd::array::spec_array_fill_for_copy_type::<SystemFunction, 1024>(
                SystemFunction::Unimplemented,
            ),
        )
    }

    /// A table with no handler in any slot.
    pub fn new() -> (table: Self)
        ensures
            table == Self::unset(),
            table@ == empty_slots(SYSCALL_SLOTS as nat),
    {
        let table = SyscallVector([SystemFunction::Unimplemented;1024]);
        assert(table@ =~= empty_slots(SYSCALL_SLOTS as nat));
        table
    }

    /// The handler of syscall `number`. Numbers from 1024 on have no slot:
    /// whoever decodes a syscall number validates it before it gets here.
    pub fn get(&self, number: usize) -> (f: SystemFunction)
        requires
            number < SYSCALL_SLOTS,
        ensures
            f == self@[number as int],
    {
        self.0[number]
    }

    /// Installs `f` as the handler of syscall `number`.
    pub fn set(&mut self, number: usize, f: SystemFunction)
        requires
            number < SYSCALL_SLOTS,
        ensures
            final(self)@ == old(self)@.update(number as int, f),
    {
        self.0[number] = f;
    }
}

/// Every table has as many slots as its type says, and the unset tables
/// hold no handler.
pub proof fn lemma_table_sizes(interrupts: InterruptVector, syscalls: SyscallVector)
    ensures
        interrupts@.len() == INTERRUPT_SLOTS,
        syscalls@.len() == SYSCALL_SLOTS,
        InterruptVector::unset()@ == empty_slots(INTERRUPT_SLOTS as nat),
        SyscallVector::unset()@ == empty_slots(SYSCALL_SLOTS as nat),
{
    assert(InterruptVector::unset()@ =~= empty_slots(INTERRUPT_SLOTS as nat));
    assert(SyscallVector::unset()@ =~= empty_slots(SYSCALL_SLOTS as nat));
}

} // verus!
