//! Byte sequences as the machine sees them: little-endian numbers and
//! in-place overwrites of a range.

use vstd::prelude::*;

verus! {

/// The `count` low-order bytes of `value`, least significant first.
pub open spec fn le_bytes(value: nat, count: nat) -> Seq<u8>
    decreases count,
{
    if count == 0 {
        Seq::empty()
    } else {
        seq![(value % 256) as u8] + le_bytes(value / 256, (count - 1) as nat)
    }
}

/// The number whose little-endian digits in base 256 are `bytes`.
pub open spec fn le_value(bytes: Seq<u8>) -> nat
    decreases bytes.len(),
{
    if bytes.len() == 0 {
        0
    } else {
        bytes[0] as nat + 256 * le_value(bytes.drop_first())
    }
}

/// 256 to the power `count`: one more than the largest number that `count`
/// bytes can hold.
pub open spec fn le_limit(count: nat) -> nat
    decreases count,
{
    if count == 0 {
        1
    } else {
        256 * le_limit((count - 1) as nat)
    }
}

/// `count` bytes, each of them zero.
pub open spec fn zeros(count: nat) -> Seq<u8> {
    Seq::new(count, |i: int| 0u8)
}

/// `mem` with the bytes from `at` on replaced by `data`; every other byte
/// keeps its value and the length stays as it is.
pub open spec fn overwrite(mem: Seq<u8>, at: int, data: Seq<u8>) -> Seq<u8> {
    Seq::new(
        mem.len(),
        |i: int|
            if at <= i < at + data.len() {
                data[i - at]
            } else {
                mem[i]
            },
    )
}

/// `le_bytes` yields exactly as many bytes as it was asked for.
pub proof fn lemma_le_bytes_len(value: nat, count: nat)
    ensures
        le_bytes(value, count).len() == count,
    decreases count,
{
    if count > 0 {
        lemma_le_bytes_len(value / 256, (count - 1) as nat);
    }
}

/// A number made of `bytes.len()` bytes lies below `le_limit(bytes.len())`.
pub proof fn lemma_le_value_bound(bytes: Seq<u8>)
    ensures
        le_value(bytes) < le_limit(bytes.len()),
    decreases bytes.len(),
{
    if bytes.len() > 0 {
        lemma_le_value_bound(bytes.drop_first());
    }
}

/// Reading back the bytes of a number that fits in them gives the number.
pub proof fn lemma_le_value_of_le_bytes(value: nat, count: nat)
    requires
        value < le_limit(count),
    ensures
        le_value(le_bytes(value, count)) == value,
    decreases count,
{
    if count > 0 {
        let rest = le_bytes(value / 256, (count - 1) as nat);
        let all = le_bytes(value, count);
        lemma_le_value_of_le_bytes(value / 256, (count - 1) as nat);
        assert(all.drop_first() =~= rest);
        assert(all[0] == (value % 256) as u8);
    }
}

/// More bytes hold larger numbers.
pub proof fn lemma_le_limit_grows(fewer: nat, more: nat)
    requires
        fewer <= more,
    ensures
        0 < le_limit(fewer) <= le_limit(more),
    decreases more,
{
    if more == 0 {
    } else if fewer == more {
        lemma_le_limit_grows((fewer - 1) as nat, (more - 1) as nat);
    } else {
        lemma_le_limit_grows(fewer, (more - 1) as nat);
    }
}

/// The limits of the four access widths of the machine.
pub proof fn lemma_le_limits()
    ensures
        le_limit(0) == 1,
        le_limit(1) == 0x100,
        le_limit(2) == 0x1_0000,
        le_limit(4) == 0x1_0000_0000,
        le_limit(8) == 0x1_0000_0000_0000_0000,
{
    reveal_with_fuel(le_limit, 9);
}

/// After an overwrite the written range holds the data, and every byte
/// outside it is the one that was there before.
pub proof fn lemma_overwrite_window(mem: Seq<u8>, at: int, data: Seq<u8>)
    requires
        0 <= at,
        at + data.len() <= mem.len(),
    ensures
        overwrite(mem, at, data).len() == mem.len(),
        overwrite(mem, at, data).subrange(at, at + data.len()) == data,
        overwrite(mem, at, data).subrange(0, at) == mem.subrange(0, at),
        overwrite(mem, at, data).subrange(at + data.len(), mem.len() as int) == mem.subrange(
            at + data.len(),
            mem.len() as int,
        ),
{
    let out = overwrite(mem, at, data);
    assert(out.subrange(at, at + data.len()) =~= data);
    assert(out.subrange(0, at) =~= mem.subrange(0, at));
    assert(out.subrange(at + data.len(), mem.len() as int) =~= mem.subrange(
        at + data.len(),
        mem.len() as int,
    ));
}

} // verus!
