//! Register files: a fixed number of bytes, read and written through aliases.

use crate::bytes::{
    le_bytes, le_limit, le_value, lemma_le_bytes_len, lemma_le_limit_grows, lemma_le_limits,
    lemma_le_value_bound, lemma_le_value_of_le_bytes, lemma_overwrite_window, overwrite, zeros,
};
use crate::register_aliases::Alias;
use crate::types::error::{SafetyResult, VmRuntimeError};
use crate::types::policy::ValidationPolicy;
use crate::utils::{dump_hex_unpadded, hex_dump};
use std::ops::Deref;
use vstd::prelude::*;

verus! {

/// The type in which the width of a register, in bits, is counted.
pub type RegisterAliasingWidth = u16;

/// The canonical width of the registers of a file.
#[derive(Clone, Debug)]
pub enum RegisterWidth {
    /// Every register of the file is this many bits wide, and every alias is
    /// a view inside one register.
    Fixed(RegisterAliasingWidth),
    /// The file has no register boundaries: any run of whole bytes inside it
    /// can be addressed.
    Variable,
}

/// A register file of exactly `N` bytes. The bytes are kept as one buffer
/// rather than as machine words, because instructions address parts of a
/// register: several aliases of different widths cover the same bytes.
#[derive(Clone, Debug)]
pub struct Registers<const N: usize> {
    bytes: [u8; N],
    width: RegisterWidth,
    policy: ValidationPolicy,
}

impl<const N: usize> View for Registers<N> {
    type V = Seq<u8>;

    /// The `N` bytes of the file, lowest address first.
    closed spec fn view(&self) -> Seq<u8> {
        self.bytes@
    }
}

impl<const N: usize> Registers<N> {
    /// The canonical width that the file was made with.
    pub closed spec fn width_tag(&self) -> RegisterWidth {
        self.width
    }

    /// The policy that the file was made with.
    pub closed spec fn policy_spec(&self) -> ValidationPolicy {
        self.policy
    }

    /// The width of one register in bits; 8 where the file has no fixed width.
    pub open spec fn canonical_width_spec(&self) -> RegisterAliasingWidth {
        match self.width_tag() {
            RegisterWidth::Fixed(w) => w,
            RegisterWidth::Variable => 8,
        }
    }

    /// What validation says of an alias, whatever the width of the access:
    /// first the shape of the alias, then the end of the file, then the
    /// boundaries of the registers. Under `Fixed(w)` the alias must be no
    /// wider than `w` bits and its first bit must be a multiple of `w`, so
    /// that it starts where a register starts.
    pub open spec fn validate(&self, alias: Alias) -> Result<(), VmRuntimeError> {
        if alias.width < 8 || alias.width % 8 != 0 {
            Err(VmRuntimeError::InvalidAlias { offset: alias.offset, width: alias.width })
        } else if alias.end_byte() > N {
            Err(
                VmRuntimeError::RegisterAliasOverrun {
                    offset: alias.offset,
                    width: alias.width,
                    alignment: self.canonical_width_spec(),
                },
            )
        } else {
            match self.width_tag() {
                RegisterWidth::Fixed(w) => {
                    if w < alias.width {
                        Err(
                            VmRuntimeError::RegisterAliasOverrun {
                                offset: alias.offset,
                                width: alias.width,
                                alignment: w,
                            },
                        )
                    } else if (8 * alias.start_byte()) as int % (w as int) != 0 {
                        Err(
                            VmRuntimeError::InvalidAlias {
                                offset: alias.offset,
                                width: alias.width,
                            },
                        )
                    } else {
                        Ok(())
                    }
                },
                RegisterWidth::Variable => Ok(()),
            }
        }
    }

    /// What validation says of an access of `len` bytes through an alias: the
    /// alias must be valid, and exactly as wide as the access.
    pub open spec fn validate_access(&self, alias: Alias, len: nat) -> Result<(), VmRuntimeError> {
        match self.validate(alias) {
            Err(e) => Err(e),
            Ok(_) => if alias.byte_len() != len {
                Err(
                    VmRuntimeError::RegisterAliasOverrun {
                        offset: alias.offset,
                        width: alias.width,
                        alignment: self.canonical_width_spec(),
                    },
                )
            } else {
                Ok(())
            },
        }
    }

    /// Whether an access of `len` bytes through the alias goes through, under
    /// the policy of the file: a checked file validates, an unchecked one
    /// lets everything pass.
    pub open spec fn verdict(&self, alias: Alias, len: nat) -> Result<(), VmRuntimeError> {
        match self.policy_spec() {
            ValidationPolicy::Checked => self.validate_access(alias, len),
            ValidationPolicy::Unchecked => Ok(()),
        }
    }

    /// The alias covers exactly `len` bytes, all of them inside the file.
    /// This is what an unchecked file leaves to its caller.
    pub open spec fn addressable(&self, alias: Alias, len: nat) -> bool {
        alias.byte_len() == len && alias.end_byte() <= N
    }

    /// The file is as it is when a machine is made: every byte zero, 16-bit
    /// registers, and the given policy.
    pub open spec fn pristine(&self, policy: ValidationPolicy) -> bool {
        &&& self@ == zeros(N as nat)
        &&& self.width_tag() == RegisterWidth::Fixed(16)
        &&& self.policy_spec() == policy
    }

    /// A zeroed file with the given canonical width, which validates every
    /// access.
    pub fn new(width: RegisterWidth) -> (regs: Self)
        ensures
            regs@ == zeros(N as nat),
            regs.width_tag() == width,
            regs.policy_spec() == ValidationPolicy::Checked,
    {
        Self::with_policy(width, ValidationPolicy::Checked)
    }

    /// A zeroed file with the given canonical width and policy.
    pub fn with_policy(width: RegisterWidth, policy: ValidationPolicy) -> (regs: Self)
        ensures
            regs@ == zeros(N as nat),
            regs.width_tag() == width,
            regs.policy_spec() == policy,
    {
        let regs = Registers { bytes: [0u8;N], width, policy };
        assert(regs@ =~= zeros(N as nat));
        regs
    }

    /// The width of one register in bits; 8 where the file has no fixed width.
    #[verifier::when_used_as_spec(canonical_width_spec)]
    pub fn canonical_width(&self) -> (w: RegisterAliasingWidth)
        ensures
            w == self.canonical_width_spec(),
    {
        match self.width {
            RegisterWidth::Fixed(v) => v,
            RegisterWidth::Variable => 8,
        }
    }

    /// The policy that the file was made with.
    #[verifier::when_used_as_spec(policy_spec)]
    pub fn policy(&self) -> (p: ValidationPolicy)
        ensures
            p == self.policy_spec(),
    {
        self.policy
    }

    /// Validates an alias against the file. An alias must cover whole bytes,
    /// end inside the file and, where the registers have a fixed width, be no
    /// wider than a register and start on a register boundary, that is at a
    /// bit that is a multiple of the register width: in a file of four-byte
    /// registers the two middle bytes of a register cannot be addressed, its
    /// first two can.
    pub fn safety_check(&self, alias: &Alias) -> (res: Result<(), VmRuntimeError>)
        ensures
            res == self.validate(*alias),
            res is Ok ==> self.addressable(*alias, alias.byte_len()),
    {
        let width = alias.width;
        let offset = alias.offset;
        if width < 8 || width % 8 != 0 {
            return Err(VmRuntimeError::InvalidAlias { offset, width });
        }
        let span = alias.range();
        if span.end > N {
            return Err(
                VmRuntimeError::RegisterAliasOverrun {
                    offset,
                    width,
                    alignment: self.canonical_width(),
                },
            );
        }
        match self.width {
            RegisterWidth::Fixed(w) => {
                if w < width {
                    return Err(
                        VmRuntimeError::RegisterAliasOverrun { offset, width, alignment: w },
                    );
                }
                assert(offset * width <= 0xffff * 0xffff) by (nonlinear_arith)
                    requires
                        offset <= 0xffff,
                        width <= 0xffff,
                ;
                let first_bit: u64 = span.start as u64 * 8;
                if first_bit % (w as u64) != 0 {
                    return Err(VmRuntimeError::InvalidAlias { offset, width });
                }
            },
            RegisterWidth::Variable => {},
        }
        Ok(())
    }

    /// Decides, under the policy of the file, whether an access of `len`
    /// bytes through the alias goes through.
    fn admit_access(&self, alias: &Alias, len: usize) -> (res: Result<(), VmRuntimeError>)
        ensures
            res == self.verdict(*alias, len as nat),
            res is Ok && self.policy_spec() is Checked ==> self.addressable(*alias, len as nat),
    {
        match self.policy {
            ValidationPolicy::Unchecked => Ok(()),
            ValidationPolicy::Checked => {
                self.safety_check(alias)?;
                if (alias.width / 8) as usize != len {
                    return Err(
                        VmRuntimeError::RegisterAliasOverrun {
                            offset: alias.offset,
                            width: alias.width,
                            alignment: self.canonical_width(),
                        },
                    );
                }
                Ok(())
            },
        }
    }

    /// Writes `val` through a 8-bit alias, least significant byte first.
    /// A checked file validates the alias and, where that fails, reports the
    /// error and keeps every byte; an unchecked file writes at once.
    pub fn write_u8(&mut self, alias: Alias, val: u8) -> (res: SafetyResult<()>)
        requires
            old(self).policy_spec() is Unchecked ==> old(self).addressable(alias, 1),
        ensures
            final(self).width_tag() == old(self).width_tag(),
            final(self).policy_spec() == old(self).policy_spec(),
            match old(self).verdict(alias, 1) {
                Ok(_) => res is Ok && final(self)@ == overwrite(
                    old(self)@,
                    alias.start_byte() as int,
                    le_bytes(val as nat, 1),
                ),
                Err(e) => res == Err::<(), VmRuntimeError>(e) && *final(self) == *old(self),
            },
    {
        self.admit_access(&alias, 1)?;
        let span = alias.range();
        self.store_le(span.start, 1, val as u64);
        Ok(())
    }

    /// Writes `val` through a 16-bit alias, least significant byte first.
    /// A checked file validates the alias and, where that fails, reports the
    /// error and keeps every byte; an unchecked file writes at once.
    pub fn write_u16(&mut self, alias: Alias, val: u16) -> (res: SafetyResult<()>)
        requires
            old(self).policy_spec() is Unchecked ==> old(self).addressable(alias, 2),
        ensures
            final(self).width_tag() == old(self).width_tag(),
            final(self).policy_spec() == old(self).policy_spec(),
            match old(self).verdict(alias, 2) {
                Ok(_) => res is Ok && final(self)@ == overwrite(
                    old(self)@,
                    alias.start_byte() as int,
                    le_bytes(val as nat, 2),
                ),
                Err(e) => res == Err::<(), VmRuntimeError>(e) && *final(self) == *old(self),
            },
    {
        self.admit_access(&alias, 2)?;
        let span = alias.range();
        self.store_le(span.start, 2, val as u64);
        Ok(())
    }

    /// Writes `val` through a 32-bit alias, least significant byte first.
    /// A checked file validates the alias and, where that fails, reports the
    /// error and keeps every byte; an unchecked file writes at once.
    pub fn write_u32(&mut self, alias: Alias, val: u32) -> (res: SafetyResult<()>)
        requires
            old(self).policy_spec() is Unchecked ==> old(self).addressable(alias, 4),
        ensures
            final(self).width_tag() == old(self).width_tag(),
            final(self).policy_spec() == old(self).policy_spec(),
            match old(self).verdict(alias, 4) {
                Ok(_) => res is Ok && final(self)@ == overwrite(
                    old(self)@,
                    alias.start_byte() as int,
                    le_bytes(val as nat, 4),
                ),
                Err(e) => res == Err::<(), VmRuntimeError>(e) && *final(self) == *old(self),
            },
    {
        self.admit_access(&alias, 4)?;
        let span = alias.range();
        self.store_le(span.start, 4, val as u64);
        Ok(())
    }

    /// Writes `val` through a 64-bit alias, least significant byte first.
    /// A checked file validates the alias and, where that fails, reports the
    /// error and keeps every byte; an unchecked file writes at once.
    pub fn write_u64(&mut self, alias: Alias, val: u64) -> (res: SafetyResult<()>)
        requires
            old(self).policy_spec() is Unchecked ==> old(self).addressable(alias, 8),
        ensures
            final(self).width_tag() == old(self).width_tag(),
            final(self).policy_spec() == old(self).policy_spec(),
            match old(self).verdict(alias, 8) {
                Ok(_) => res is Ok && final(self)@ == overwrite(
                    old(self)@,
                    alias.start_byte() as int,
                    le_bytes(val as nat, 8),
                ),
                Err(e) => res == Err::<(), VmRuntimeError>(e) && *final(self) == *old(self),
            },
    {
        self.admit_access(&alias, 8)?;
        let span = alias.range();
        self.store_le(span.start, 8, val as u64);
        Ok(())
    }

    /// Reads a 8-bit alias, least significant byte first. A checked file
    /// validates the alias and reports the error where that fails; an
    /// unchecked file reads at once.
    pub fn read_u8(&self, alias: Alias) -> (res: SafetyResult<u8>)
        requires
            self.policy_spec() is Unchecked ==> self.addressable(alias, 1),
        ensures
            match self.verdict(alias, 1) {
                Ok(_) => res == Ok::<u8, VmRuntimeError>(
                    le_value(self@.subrange(alias.start_byte() as int, alias.end_byte() as int)) as u8,
                ),
                Err(e) => res == Err::<u8, VmRuntimeError>(e),
            },
            res is Ok ==> le_value(
                self@.subrange(alias.start_byte() as int, alias.end_byte() as int),
            ) <= u8::MAX,
    {
        self.admit_access(&alias, 1)?;
        let span = alias.range();
        let value = self.load_le(span.start, 1);
        proof {
            lemma_le_limits();
        }
        Ok(value as u8)
    }

    /// Reads a 16-bit alias, least significant byte first. A checked file
    /// validates the alias and reports the error where that fails; an
    /// unchecked file reads at once.
    pub fn read_u16(&self, alias: Alias) -> (res: SafetyResult<u16>)
        requires
            self.policy_spec() is Unchecked ==> self.addressable(alias, 2),
        ensures
            match self.verdict(alias, 2) {
                Ok(_) => res == Ok::<u16, VmRuntimeError>(
                    le_value(self@.subrange(alias.start_byte() as int, alias.end_byte() as int)) as u16,
                ),
                Err(e) => res == Err::<u16, VmRuntimeError>(e),
            },
            res is Ok ==> le_value(
                self@.subrange(alias.start_byte() as int, alias.end_byte() as int),
            ) <= u16::MAX,
    {
        self.admit_access(&alias, 2)?;
        let span = alias.range();
        let value = self.load_le(span.start, 2);
        proof {
            lemma_le_limits();
        }
        Ok(value as u16)
    }

    /// Reads a 32-bit alias, least significant byte first. A checked file
    /// validates the alias and reports the error where that fails; an
    /// unchecked file reads at once.
    pub fn read_u32(&self, alias: Alias) -> (res: SafetyResult<u32>)
        requires
            self.policy_spec() is Unchecked ==> self.addressable(alias, 4),
        ensures
            match self.verdict(alias, 4) {
                Ok(_) => res == Ok::<u32, VmRuntimeError>(
                    le_value(self@.subrange(alias.start_byte() as int, alias.end_byte() as int)) as u32,
                ),
                Err(e) => res == Err::<u32, VmRuntimeError>(e),
            },
            res is Ok ==> le_value(
                self@.subrange(alias.start_byte() as int, alias.end_byte() as int),
            ) <= u32::MAX,
    {
        self.admit_access(&alias, 4)?;
        let span = alias.range();
        let value = self.load_le(span.start, 4);
        proof {
            lemma_le_limits();
        }
        Ok(value as u32)
    }

    /// Reads a 64-bit alias, least significant byte first. A checked file
    /// validates the alias and reports the error where that fails; an
    /// unchecked file reads at once.
    pub fn read_u64(&self, alias: Alias) -> (res: SafetyResult<u64>)
        requires
            self.policy_spec() is Unchecked ==> self.addressable(alias, 8),
        ensures
            match self.verdict(alias, 8) {
                Ok(_) => res == Ok::<u64, VmRuntimeError>(
                    le_value(self@.subrange(alias.start_byte() as int, alias.end_byte() as int)) as u64,
                ),
                Err(e) => res == Err::<u64, VmRuntimeError>(e),
            },
            res is Ok ==> le_value(
                self@.subrange(alias.start_byte() as int, alias.end_byte() as int),
            ) <= u64::MAX,
    {
        self.admit_access(&alias, 8)?;
        let span = alias.range();
        let value = self.load_le(span.start, 8);
        proof {
            lemma_le_limits();
        }
        Ok(value as u64)
    }

    /// The bytes that an alias covers. A checked file validates the alias and
    /// reports the error where that fails; an unchecked file hands the bytes
    /// out at once.
    pub fn read_bytes(&self, alias: &Alias) -> (res: SafetyResult<&[u8]>)
        requires
            self.policy_spec() is Unchecked ==> self.addressable(*alias, alias.byte_len()),
        ensures
            match self.verdict(*alias, alias.byte_len()) {
                Ok(_) => res is Ok && res->Ok_0@ == self@.subrange(
                    alias.start_byte() as int,
                    alias.end_byte() as int,
                ),
                Err(e) => res == Err::<&[u8], VmRuntimeError>(e),
            },
            res is Ok ==> alias.end_byte() <= N,
    {
        self.admit_access(alias, (alias.width / 8) as usize)?;
        let span = alias.range();
        Ok(&self.bytes[span.start..span.end])
    }

    /// Replaces the bytes that an alias covers by `bytes`, which must be
    /// exactly as many. A checked file validates the alias and, where that
    /// fails, reports the error and keeps every byte; an unchecked file
    /// writes at once.
    pub fn write_bytes(&mut self, alias: Alias, bytes: &[u8]) -> (res: SafetyResult<()>)
        requires
            old(self).policy_spec() is Unchecked ==> old(self).addressable(alias, bytes@.len()),
        ensures
            final(self).width_tag() == old(self).width_tag(),
            final(self).policy_spec() == old(self).policy_spec(),
            match old(self).verdict(alias, bytes@.len()) {
                Ok(_) => res is Ok && final(self)@ == overwrite(
                    old(self)@,
                    alias.start_byte() as int,
                    bytes@,
                ),
                Err(e) => res == Err::<(), VmRuntimeError>(e) && *final(self) == *old(self),
            },
    {
        self.admit_access(&alias, bytes.len())?;
        let span = alias.range();
        let start = span.start;
        let count = bytes.len();
        let mut i: usize = 0;
        assert(self@ =~= overwrite(old(self)@, start as int, bytes@.subrange(0, 0)));
        while i < count
            invariant
                i <= count,
                count == bytes@.len(),
                start + count <= N,
                self@.len() == N,
                old(self)@.len() == N,
                self@ == overwrite(old(self)@, start as int, bytes@.subrange(0, i as int)),
                self.width_tag() == old(self).width_tag(),
                self.policy_spec() == old(self).policy_spec(),
            decreases count - i,
        {
            let ghost before = self@;
            self.bytes[start + i] = bytes[i];
            assert(self@ =~= before.update(start + i, bytes@[i as int]));
            assert(self@ =~= overwrite(old(self)@, start as int, bytes@.subrange(0, i + 1)));
            i = i + 1;
        }
        assert(bytes@.subrange(0, count as int) =~= bytes@);
        Ok(())
    }

    /// The bytes of the file as a hex dump, in rows of 64 bytes.
    pub fn dump_hex(&self) -> (out: String)
        ensures
            out@ == hex_dump(self@),
    {
        dump_hex_unpadded(&self.bytes)
    }

    /// Stores the `count` low-order bytes of `value` from `start` on, least
    /// significant first.
    fn store_le(&mut self, start: usize, count: usize, value: u64)
        requires
            start + count <= N,
        ensures
            final(self)@ == overwrite(old(self)@, start as int, le_bytes(value as nat, count as nat)),
            final(self).width_tag() == old(self).width_tag(),
            final(self).policy_spec() == old(self).policy_spec(),
    {
        let ghost digits = le_bytes(value as nat, count as nat);
        let mut rest: u64 = value;
        let mut i: usize = 0;
        proof {
            lemma_le_bytes_len(value as nat, count as nat);
            assert(digits.subrange(0, count as int) =~= digits);
            assert(self@ =~= overwrite(old(self)@, start as int, digits.subrange(0, 0)));
        }
        while i < count
            invariant
                i <= count,
                start + count <= N,
                digits == le_bytes(value as nat, count as nat),
                digits.len() == count,
                self@.len() == N,
                old(self)@.len() == N,
                self@ == overwrite(old(self)@, start as int, digits.subrange(0, i as int)),
                digits.subrange(i as int, count as int) == le_bytes(rest as nat, (count - i) as nat),
                self.width_tag() == old(self).width_tag(),
                self.policy_spec() == old(self).policy_spec(),
            decreases count - i,
        {
            let byte: u8 = (rest % 256) as u8;
            let ghost before = self@;
            self.bytes[start + i] = byte;
            proof {
                let remaining = le_bytes(rest as nat, (count - i) as nat);
                let shorter = le_bytes((rest / 256) as nat, (count - i - 1) as nat);
                lemma_le_bytes_len((rest / 256) as nat, (count - i - 1) as nat);
                assert(remaining =~= seq![byte] + shorter);
                assert(digits[i as int] == remaining[0]);
                assert(digits.subrange(i + 1, count as int) =~= shorter) by {
                    assert forall|k: int| 0 <= k < shorter.len() implies digits.subrange(
                        i + 1,
                        count as int,
                    )[k] == shorter[k] by {
                        assert(digits.subrange(i as int, count as int)[k + 1] == remaining[k + 1]);
                    }
                }
                assert(self@ =~= before.update(start + i, byte));
                assert(self@ =~= overwrite(
                    old(self)@,
                    start as int,
                    digits.subrange(0, i + 1),
                ));
            }
            rest = rest / 256;
            i = i + 1;
        }
        proof {
            assert(digits.subrange(0, count as int) =~= digits);
        }
    }

    /// Reads `count` bytes from `start` on as one number, least significant
    /// byte first.
    fn load_le(&self, start: usize, count: usize) -> (value: u64)
        requires
            start + count <= N,
            count <= 8,
        ensures
            value == le_value(self@.subrange(start as int, start + count)),
            value < le_limit(count as nat),
    {
        let mut acc: u64 = 0;
        let mut i: usize = count;
        proof {
            assert(self@.subrange(start + count, start + count).len() == 0);
            lemma_le_limits();
        }
        while i > 0
            invariant
                i <= count <= 8,
                start + count <= N,
                self@.len() == N,
                acc == le_value(self@.subrange(start + i, start + count)),
                acc < le_limit((count - i) as nat),
            decreases i,
        {
            let byte: u8 = self.bytes[start + i - 1];
            proof {
                let longer = self@.subrange(start + i - 1, start + count);
                let shorter = self@.subrange(start + i, start + count);
                assert(longer.drop_first() =~= shorter);
                assert(longer[0] == byte);
                lemma_le_limit_grows((count - i) as nat, 7);
                lemma_le_limits();
                reveal_with_fuel(le_limit, 9);
                lemma_le_value_bound(longer);
            }
            acc = acc * 256 + byte as u64;
            i = i - 1;
        }
        acc
    }
}

impl<const N: usize> Default for Registers<N> {
    /// A zeroed file of 16-bit registers, which validates every access.
    fn default() -> (regs: Self)
        ensures
            regs.pristine(ValidationPolicy::Checked),
    {
        Registers::new(RegisterWidth::Fixed(16))
    }
}

impl<const N: usize> Deref for Registers<N> {
    type Target = [u8; N];

    /// The bytes of the file.
    fn deref(&self) -> (bytes: &[u8; N])
        ensures
            bytes@ == self@,
    {
        &self.bytes
    }
}

/// A file holds exactly `N` bytes, whatever was written to it.
pub proof fn lemma_file_size<const N: usize>(regs: Registers<N>)
    ensures
        regs@.len() == N,
{
}

/// Validation counted in bits: an alias passes exactly when its width is a
/// whole number of bytes, at least one, its last bit lies inside the file
/// and, where the registers are `w` bits wide, it is no wider than `w` and
/// its first bit, `offset * width`, is a multiple of `w`.
pub proof fn lemma_validation_in_bits<const N: usize>(regs: Registers<N>, alias: Alias)
    ensures
        alias.width % 8 == 0 ==> 8 * alias.start_byte() == alias.offset * alias.width,
        regs.validate(alias) is Ok <==> {
            &&& alias.width >= 8
            &&& alias.width % 8 == 0
            &&& (alias.offset * alias.width + alias.width) / 8 <= N
            &&& regs.width_tag() matches RegisterWidth::Fixed(w) ==> alias.width <= w && (
            alias.offset * alias.width) % (w as int) == 0
        },
{
    let offset = alias.offset as int;
    let width = alias.width as int;
    if width % 8 == 0 {
        let bytes = width / 8;
        assert(offset * width == (offset * bytes) * 8) by (nonlinear_arith)
            requires
                width == bytes * 8,
        ;
        assert(alias.start_byte() == offset * bytes);
        assert((offset * width + width) / 8 == offset * bytes + bytes);
    }
}

/// In a file of `w`-bit registers, validation rejects every alias that is
/// wider than a register, and every alias whose first bit is no multiple of
/// `w` (whose first byte is no multiple of `w / 8`, the quotient taken
/// exactly); the error is one of the two alias errors and carries the offset
/// and width of the alias.
pub proof fn lemma_misplaced_alias_is_rejected<const N: usize>(
    regs: Registers<N>,
    alias: Alias,
    w: RegisterAliasingWidth,
)
    requires
        regs.width_tag() == RegisterWidth::Fixed(w),
        alias.width > w || (8 * alias.start_byte()) as int % (w as int) != 0,
    ensures
        regs.validate(alias) is Err,
        forall|len: nat| #[trigger] regs.validate_access(alias, len) is Err,
        regs.policy_spec() is Checked ==> forall|len: nat| #[trigger]
            regs.verdict(alias, len) is Err,
        regs.validate(alias)->Err_0 == (VmRuntimeError::InvalidAlias {
            offset: alias.offset,
            width: alias.width,
        }) || (exists|alignment: u16|
            regs.validate(alias)->Err_0 == (VmRuntimeError::RegisterAliasOverrun {
                offset: alias.offset,
                width: alias.width,
                alignment,
            })),
{
    match regs.validate(alias) {
        Err(VmRuntimeError::RegisterAliasOverrun { offset, width, alignment }) => {
            assert(regs.validate(alias)->Err_0 == (VmRuntimeError::RegisterAliasOverrun {
                offset: alias.offset,
                width: alias.width,
                alignment,
            }));
        },
        _ => {},
    }
}

/// What a checked file lets pass is an alias of exactly the width of the
/// access, which lies inside the file: for the accesses of 1, 2, 4 and 8
/// bytes, an alias of 8, 16, 32 or 64 bits.
pub proof fn lemma_accepted_alias_has_the_width_of_the_access<const N: usize>(
    regs: Registers<N>,
    alias: Alias,
    len: nat,
)
    requires
        regs.policy_spec() is Checked,
        regs.verdict(alias, len) is Ok,
    ensures
        alias.width == 8 * len,
        regs.addressable(alias, len),
        len == 1 || len == 2 || len == 4 || len == 8 ==> alias.well_formed(),
{
}

/// A value written through an alias that the file accepts is the value read
/// back through the same alias: `after` stands for the file once the
/// `len`-byte value has been written to `before`.
pub proof fn lemma_write_then_read<const N: usize>(
    before: Registers<N>,
    after: Registers<N>,
    alias: Alias,
    value: nat,
    len: nat,
)
    requires
        before.verdict(alias, len) is Ok,
        before.addressable(alias, len),
        value < le_limit(len),
        after@ == overwrite(before@, alias.start_byte() as int, le_bytes(value, len)),
        after.width_tag() == before.width_tag(),
        after.policy_spec() == before.policy_spec(),
    ensures
        after.verdict(alias, len) is Ok,
        le_value(after@.subrange(alias.start_byte() as int, alias.end_byte() as int)) == value,
{
    lemma_le_bytes_len(value, len);
    lemma_overwrite_window(before@, alias.start_byte() as int, le_bytes(value, len));
    lemma_le_value_of_le_bytes(value, len);
}

} // verus!
