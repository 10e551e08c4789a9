//! The machine's memory: one flat run of bytes whose size is fixed when it is
//! made. The floating-point unit's registers live here too.

use crate::bytes::{lemma_overwrite_window, overwrite, zeros};
use crate::registers::{RegisterWidth, Registers};
use crate::types::error::VmRuntimeError;
use crate::types::memory::ByteUnits;
use crate::types::policy::ValidationPolicy;
use crate::utils::{dump_hex, hex_dump, padded};
use std::ops::Deref;
use vstd::prelude::*;

verus! {

/// A flat byte store. Every access is checked against its size, which never
/// changes after construction.
#[derive(Clone, Debug)]
pub struct ContiguousMemory(Vec<u8>);

impl View for ContiguousMemory {
    type V = Seq<u8>;

    /// The bytes of the store, lowest address first.
    closed spec fn view(&self) -> Seq<u8> {
        self.0@
    }
}

impl Deref for ContiguousMemory {
    type Target = Vec<u8>;

    /// The bytes of the store.
    fn deref(&self) -> (bytes: &Vec<u8>)
        ensures
            bytes@ == self@,
    {
        &self.0
    }
}

/// The address that an out-of-bounds error names for an access of `len` bytes
/// at `addr`: one past the last byte asked for, or the largest address where
/// that sum cannot be written down.
pub open spec fn end_address(addr: usize, len: nat) -> u64 {
    if addr + len <= u64::MAX {
        (addr + len) as u64
    } else {
        u64::MAX
    }
}

impl ContiguousMemory {
    /// A store of the given size, every byte zero.
    pub fn with_size(size: &ByteUnits) -> (mem: Self)
        requires
            size.byte_count() <= usize::MAX,
        ensures
            mem@ == zeros(size.byte_count()),
            mem@.len() == size.byte_count(),
            forall|addr: int| 0 <= addr < mem@.len() ==> mem@[addr] == 0,
    {
        let bytes: Vec<u8> = vec![0u8; size.num_bytes() as usize];
        assert(bytes@ =~= zeros(size.byte_count()));
        ContiguousMemory(bytes)
    }

    /// The number of bytes in the store.
    pub fn capacity(&self) -> (n: usize)
        ensures
            n == self@.len(),
    {
        self.0.len()
    }

    /// The address reported for an access of `len` bytes at `addr` that does
    /// not fit.
    fn out_of_bounds(addr: usize, len: usize) -> (e: VmRuntimeError)
        ensures
            e == (VmRuntimeError::OutOfBoundsError { address: end_address(addr, len as nat) }),
    {
        VmRuntimeError::OutOfBoundsError { address: (addr as u64).saturating_add(len as u64) }
    }

    /// Replaces the `data.len()` bytes from `addr` on by `data`. The whole
    /// range is written or, where it does not lie inside the store, nothing
    /// is; bytes outside the range are never touched.
    pub fn write(&mut self, addr: usize, data: &[u8]) -> (res: Result<(), VmRuntimeError>)
        ensures
            addr + data@.len() <= old(self)@.len() ==> res is Ok && final(self)@ == overwrite(
                old(self)@,
                addr as int,
                data@,
            ),
            addr + data@.len() > old(self)@.len() ==> res == Err::<(), VmRuntimeError>(
                VmRuntimeError::OutOfBoundsError { address: end_address(addr, data@.len()) },
            ) && *final(self) == *old(self),
    {
        let len = data.len();
        let allocated_len = self.0.len();
        if len > allocated_len || addr > allocated_len - len {
            return Err(Self::out_of_bounds(addr, len));
        }
        let mut i: usize = 0;
        assert(self@ =~= overwrite(old(self)@, addr as int, data@.subrange(0, 0)));
        while i < len
            invariant
                i <= len,
                len == data@.len(),
                addr + len <= allocated_len,
                self@.len() == allocated_len,
                old(self)@.len() == allocated_len,
                self@ == overwrite(old(self)@, addr as int, data@.subrange(0, i as int)),
            decreases len - i,
        {
            let ghost before = self@;
            self.0[addr + i] = data[i];
            assert(self@ =~= before.update(addr + i, data@[i as int]));
            assert(self@ =~= overwrite(old(self)@, addr as int, data@.subrange(0, i + 1)));
            i = i + 1;
        }
        assert(data@.subrange(0, len as int) =~= data@);
        Ok(())
    }

    /// The `len` bytes from `addr` on, where they all lie inside the store.
    pub fn read(&self, addr: usize, len: usize) -> (res: Result<&[u8], VmRuntimeError>)
        ensures
            addr + len <= self@.len() ==> res is Ok && res->Ok_0@ == self@.subrange(
                addr as int,
                addr + len,
            ),
            addr + len > self@.len() ==> res == Err::<&[u8], VmRuntimeError>(
                VmRuntimeError::OutOfBoundsError { address: end_address(addr, len as nat) },
            ),
    {
        let max = self.0.len();
        if len > max || addr > max - len {
            return Err(Self::out_of_bounds(addr, len));
        }
        Ok(vstd::slice::slice_subrange(self.0.as_slice(), addr, addr + len))
    }

    /// The bytes of the store as a hex dump, in rows of 64 bytes; the last
    /// row is filled up with zero bytes.
    pub fn dump_hex(&self) -> (out: String)
        ensures
            out@ == hex_dump(padded(self@)),
    {
        dump_hex(self.0.as_slice())
    }

    /// The byte at `addr`, where the store has one there.
    pub fn read_byte(&self, addr: usize) -> (res: Result<u8, VmRuntimeError>)
        ensures
            addr < self@.len() ==> res == Ok::<u8, VmRuntimeError>(self@[addr as int]),
            addr >= self@.len() ==> res == Err::<u8, VmRuntimeError>(
                VmRuntimeError::OutOfBoundsError { address: addr as u64 },
            ),
    {
        if addr >= self.0.len() {
            return Err(VmRuntimeError::OutOfBoundsError { address: addr as u64 });
        }
        Ok(self.0[addr])
    }
}

/// After a write that fits, the written range reads back as the data, and
/// every byte outside it is the byte that was there before: the one just
/// below the range and the one just above it too, where the store has them.
/// `after` stands for the store once `data` has been written to `before` at
/// `addr`.
pub proof fn lemma_write_then_read(
    before: ContiguousMemory,
    after: ContiguousMemory,
    addr: usize,
    data: Seq<u8>,
)
    requires
        addr + data.len() <= before@.len(),
        after@ == overwrite(before@, addr as int, data),
    ensures
        after@.len() == before@.len(),
        after@.subrange(addr as int, addr + data.len()) == data,
        forall|i: int| addr <= i < addr + data.len() ==> after@[i] == data[i - addr],
        forall|i: int|
            0 <= i < before@.len() && !(addr <= i < addr + data.len()) ==> after@[i] == before@[i],
        addr > 0 ==> after@[addr - 1] == before@[addr - 1],
        addr + data.len() < before@.len() ==> after@[addr + data.len()] == before@[addr
            + data.len()],
{
    lemma_overwrite_window(before@, addr as int, data);
}

/// The registers of the floating-point unit. Their contents are plain bytes
/// to the machine: no arithmetic is defined on them here.
#[derive(Debug, Clone)]
pub struct Fpu {
    /// 8 x 80-bit data registers
    pub registers: Registers<80>,
    /// 1 x 16-bit control register
    pub control_register: Registers<2>,
    /// 1 x 16-bit status register
    pub status_register: Registers<2>,
    /// 1 x 16-bit tag register
    pub tag_register: Registers<2>,
    /// 1 x 11-bit opcode register, rounded up to 16 bits
    pub opcode_register: Registers<2>,
    /// 1 x 64-bit instruction pointer
    pub fpu_instruction_pointer: Registers<8>,
    /// 1 x 64-bit data pointer
    pub fpu_data_pointer: Registers<8>,
}

impl Fpu {
    /// Every register file of the unit is as it is when a machine is made.
    pub open spec fn pristine(&self, policy: ValidationPolicy) -> bool {
        &&& self.registers.pristine(policy)
        &&& self.control_register.pristine(policy)
        &&& self.status_register.pristine(policy)
        &&& self.tag_register.pristine(policy)
        &&& self.opcode_register.pristine(policy)
        &&& self.fpu_instruction_pointer.pristine(policy)
        &&& self.fpu_data_pointer.pristine(policy)
    }

    /// A unit with every register zeroed.
    pub fn with_policy(policy: ValidationPolicy) -> (fpu: Self)
        ensures
            fpu.pristine(policy),
    {
        Fpu {
            registers: Registers::with_policy(RegisterWidth::Fixed(16), policy),
            control_register: Registers::with_policy(RegisterWidth::Fixed(16), policy),
            status_register: Registers::with_policy(RegisterWidth::Fixed(16), policy),
            tag_register: Registers::with_policy(RegisterWidth::Fixed(16), policy),
            opcode_register: Registers::with_policy(RegisterWidth::Fixed(16), policy),
            fpu_instruction_pointer: Registers::with_policy(RegisterWidth::Fixed(16), policy),
            fpu_data_pointer: Registers::with_policy(RegisterWidth::Fixed(16), policy),
        }
    }
}

impl Default for Fpu {
    /// A unit with every register zeroed, which validates every access.
    fn default() -> (fpu: Self)
        ensures
            fpu.pristine(ValidationPolicy::Checked),
    {
        Fpu::with_policy(ValidationPolicy::Checked)
    }
}

} // verus!
