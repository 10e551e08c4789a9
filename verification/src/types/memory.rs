//! Amounts of memory, each tagged with the unit it was written in.

use vstd::prelude::*;

verus! {

/// An amount of memory together with its unit, so that a bare number is never
/// mistaken for the wrong multiple of a byte.
#[derive(Debug, Clone)]
pub enum ByteUnits {
    /// b (1 byte)
    Bytes(u64),
    /// KB (1000 bytes)
    KiloBytes(u64),
    /// KiB (1024 bytes)
    KibiBytes(u64),
    /// MB (1000 KB)
    MegaBytes(u64),
    /// MiB (1024 KiB)
    MebiBytes(u64),
    /// GB (1000 MB)
    GigaBytes(u64),
    /// GiB (1024 MiB)
    GibiBytes(u64),
}

impl ByteUnits {
    /// The amount in bytes, as a mathematical integer: the magnitude times
    /// 1000 per step of a decimal prefix, times 1024 per step of a binary one.
    pub open spec fn byte_count(&self) -> nat {
        match *self {
            ByteUnits::Bytes(v) => v as nat,
            ByteUnits::KiloBytes(v) => v as nat * 1000,
            ByteUnits::KibiBytes(v) => v as nat * 1024,
            ByteUnits::MegaBytes(v) => v as nat * (1000 * 1000),
            ByteUnits::MebiBytes(v) => v as nat * (1024 * 1024),
            ByteUnits::GigaBytes(v) => v as nat * (1000 * 1000 * 1000),
            ByteUnits::GibiBytes(v) => v as nat * (1024 * 1024 * 1024),
        }
    }

    /// The amount in bytes. Only this conversion is offered: every other unit
    /// would need fractions, and every use ends in a byte count anyway.
    pub fn num_bytes(&self) -> (n: u64)
        requires
            self.byte_count() <= u64::MAX,
        ensures
            n == self.byte_count(),
    {
        match self {
            ByteUnits::Bytes(v) => *v,
            ByteUnits::KiloBytes(v) => *v * 1000,
            ByteUnits::KibiBytes(v) => *v * 1024,
            ByteUnits::MegaBytes(v) => *v * (1000 * 1000),
            ByteUnits::MebiBytes(v) => *v * (1024 * 1024),
            ByteUnits::GigaBytes(v) => *v * (1000 * 1000 * 1000),
            ByteUnits::GibiBytes(v) => *v * (1024 * 1024 * 1024),
        }
    }

    /// The amount in bytes where a `u64` can hold it, `None` where it cannot.
    pub fn checked_num_bytes(&self) -> (n: Option<u64>)
        ensures
            match n {
                Some(bytes) => bytes == self.byte_count(),
                None => self.byte_count() > u64::MAX,
            },
    {
        match self {
            ByteUnits::Bytes(v) => Some(*v),
            ByteUnits::KiloBytes(v) => v.checked_mul(1000),
            ByteUnits::KibiBytes(v) => v.checked_mul(1024),
            ByteUnits::MegaBytes(v) => v.checked_mul(1000 * 1000),
            ByteUnits::MebiBytes(v) => v.checked_mul(1024 * 1024),
            ByteUnits::GigaBytes(v) => v.checked_mul(1000 * 1000 * 1000),
            ByteUnits::GibiBytes(v) => v.checked_mul(1024 * 1024 * 1024),
        }
    }

    /// The same amount written in bytes.
    pub fn to_bytes(self) -> (b: Self)
        requires
            self.byte_count() <= u64::MAX,
        ensures
            b == ByteUnits::Bytes(self.byte_count() as u64),
    {
        match self {
            ByteUnits::Bytes(v) => ByteUnits::Bytes(v),
            ByteUnits::KiloBytes(v) => ByteUnits::Bytes(v * 1000),
            ByteUnits::KibiBytes(v) => ByteUnits::Bytes(v * 1024),
            ByteUnits::MegaBytes(v) => ByteUnits::Bytes(v * (1000 * 1000)),
            ByteUnits::MebiBytes(v) => ByteUnits::Bytes(v * (1024 * 1024)),
            ByteUnits::GigaBytes(v) => ByteUnits::Bytes(v * (1000 * 1000 * 1000)),
            ByteUnits::GibiBytes(v) => ByteUnits::Bytes(v * (1024 * 1024 * 1024)),
        }
    }
}

} // verus!
