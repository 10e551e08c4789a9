//! Hex dumps of byte buffers, for diagnostics.
//!
//! A dump is a `[` on a line of its own, then one line per row of up to 64
//! bytes, and a closing `]`. A row is a tab, then the bytes as two upper-case
//! hex digits each, separated by single spaces.

use vstd::prelude::*;
use vstd::slice::slice_to_vec;
use vstd::string::StringExecFns;

verus! {

/// The number of bytes in a full row of a dump.
pub const ROW_BYTES: usize = 64;

/// The largest buffer that `dump_truncated_hex` prints byte by byte.
pub const TRUNCATION_LIMIT: usize = 4096;

/// The upper-case hex digit of a number below 16.
pub open spec fn hex_digit(n: nat) -> char {
    if n == 0 {
        '0'
    } else if n == 1 {
        '1'
    } else if n == 2 {
        '2'
    } else if n == 3 {
        '3'
    } else if n == 4 {
        '4'
    } else if n == 5 {
        '5'
    } else if n == 6 {
        '6'
    } else if n == 7 {
        '7'
    } else if n == 8 {
        '8'
    } else if n == 9 {
        '9'
    } else if n == 10 {
        'A'
    } else if n == 11 {
        'B'
    } else if n == 12 {
        'C'
    } else if n == 13 {
        'D'
    } else if n == 14 {
        'E'
    } else {
        'F'
    }
}

/// A byte as two hex digits, the high one first.
pub open spec fn hex_byte(b: u8) -> Seq<char> {
    seq![hex_digit(b as nat / 16), hex_digit(b as nat % 16)]
}

/// The bytes of one row as hex, separated by single spaces.
pub open spec fn hex_cells(row: Seq<u8>) -> Seq<char>
    decreases row.len(),
{
    if row.len() == 0 {
        Seq::empty()
    } else if row.len() == 1 {
        hex_byte(row[0])
    } else {
        hex_cells(row.drop_last()) + seq![' '] + hex_byte(row.last())
    }
}

/// One line of a dump: a tab, the bytes of the row, a line feed.
pub open spec fn hex_row(row: Seq<u8>) -> Seq<char> {
    seq!['\t'] + hex_cells(row) + seq!['\n']
}

/// The lines of a dump: the bytes in rows of 64, the last row shorter where
/// the length is no multiple of 64.
pub open spec fn hex_rows(data: Seq<u8>) -> Seq<char>
    decreases data.len(),
{
    if data.len() == 0 {
        Seq::empty()
    } else {
        let start = ((data.len() - 1) / 64) * 64;
        hex_rows(data.subrange(0, start)) + hex_row(data.subrange(start, data.len() as int))
    }
}

/// A whole dump: the opening line, the rows, the closing bracket.
pub open spec fn hex_dump(data: Seq<u8>) -> Seq<char> {
    seq!['[', '\n'] + hex_rows(data) + seq![']']
}

/// `data` followed by as few zero bytes as make its length a multiple of 64.
pub open spec fn padded(data: Seq<u8>) -> Seq<u8> {
    data + Seq::new(((64 - data.len() % 64) % 64) as nat, |i: int| 0u8)
}

/// A number in decimal, without leading zeros.
pub open spec fn decimal(n: nat) -> Seq<char>
    decreases n,
{
    if n < 10 {
        seq![hex_digit(n)]
    } else {
        decimal(n / 10) + seq![hex_digit(n % 10)]
    }
}

/// What stands in place of the rows where a buffer is too large to print:
/// its length in bytes.
pub open spec fn hex_summary(len: nat) -> Seq<char> {
    seq!['[', '\n', '\t', ' ', '<', ' '] + decimal(len) + seq![
        ' ',
        'b',
        'y',
        't',
        'e',
        's',
        ' ',
        '>',
        '\n',
        ']',
    ]
}

/// The digit of a number below 16, as a string of one character.
fn digit_str(n: u8) -> (s: &'static str)
    requires
        n < 16,
    ensures
        s@ == seq![hex_digit(n as nat)],
{
    proof {
        reveal_strlit("0");
        reveal_strlit("1");
        reveal_strlit("2");
        reveal_strlit("3");
        reveal_strlit("4");
        reveal_strlit("5");
        reveal_strlit("6");
        reveal_strlit("7");
        reveal_strlit("8");
        reveal_strlit("9");
        reveal_strlit("A");
        reveal_strlit("B");
        reveal_strlit("C");
        reveal_strlit("D");
        reveal_strlit("E");
        reveal_strlit("F");
    }
    let s = match n {
        0 => "0",
        1 => "1",
        2 => "2",
        3 => "3",
        4 => "4",
        5 => "5",
        6 => "6",
        7 => "7",
        8 => "8",
        9 => "9",
        10 => "A",
        11 => "B",
        12 => "C",
        13 => "D",
        14 => "E",
        _ => "F",
    };
    assert(s@ =~= seq![hex_digit(n as nat)]);
    s
}

/// Appends a number in decimal.
fn append_decimal(out: &mut String, n: usize)
    ensures
        final(out)@ == old(out)@ + decimal(n as nat),
    decreases n,
{
    if n >= 10 {
        append_decimal(out, n / 10);
    }
    out.append(digit_str((n % 10) as u8));
    assert(out@ =~= old(out)@ + decimal(n as nat));
}

/// Appends one row of a dump.
fn append_row(out: &mut String, row: &[u8])
    ensures
        final(out)@ == old(out)@ + hex_row(row@),
{
    proof {
        reveal_strlit("\t");
        reveal_strlit(" ");
        reveal_strlit("\n");
    }
    out.append("\t");
    let mut i: usize = 0;
    assert(row@.subrange(0, 0) =~= Seq::<u8>::empty());
    assert(out@ =~= old(out)@ + seq!['\t'] + hex_cells(row@.subrange(0, 0)));
    while i < row.len()
        invariant
            i <= row@.len(),
            out@ == old(out)@ + seq!['\t'] + hex_cells(row@.subrange(0, i as int)),
            " "@ == seq![' '],
        decreases row@.len() - i,
    {
        if i > 0 {
            out.append(" ");
        }
        let byte = row[i];
        out.append(digit_str(byte / 16));
        out.append(digit_str(byte % 16));
        proof {
            let longer = row@.subrange(0, i + 1);
            assert(longer.drop_last() =~= row@.subrange(0, i as int));
            assert(longer.last() == byte);
            assert(out@ =~= old(out)@ + seq!['\t'] + hex_cells(longer));
        }
        i = i + 1;
    }
    assert(row@.subrange(0, row@.len() as int) =~= row@);
    out.append("\n");
    assert(out@ =~= old(out)@ + hex_row(row@));
}

/// Appends the rows of a dump.
fn append_rows(out: &mut String, data: &[u8])
    ensures
        final(out)@ == old(out)@ + hex_rows(data@),
{
    let len = data.len();
    let mut start: usize = 0;
    assert(data@.subrange(0, 0) =~= Seq::<u8>::empty());
    assert(out@ =~= old(out)@ + hex_rows(data@.subrange(0, 0)));
    while start < len
        invariant
            start <= len,
            len == data@.len(),
            start % 64 == 0 || start == len,
            out@ == old(out)@ + hex_rows(data@.subrange(0, start as int)),
        decreases len - start,
    {
        let end: usize = if len - start > ROW_BYTES {
            start + ROW_BYTES
        } else {
            len
        };
        let row = vstd::slice::slice_subrange(data, start, end);
        append_row(out, row);
        proof {
            let upto = data@.subrange(0, end as int);
            assert(((upto.len() - 1) / 64) * 64 == start);
            assert(upto.subrange(0, start as int) =~= data@.subrange(0, start as int));
            assert(upto.subrange(start as int, upto.len() as int) =~= row@);
            assert(out@ =~= old(out)@ + hex_rows(upto));
        }
        start = end;
    }
    assert(data@.subrange(0, len as int) =~= data@);
}

/// The dump of `data` as it is, the last row as short as the data leaves it.
pub fn dump_hex_unpadded(data: &[u8]) -> (out: String)
    ensures
        out@ == hex_dump(data@),
{
    proof {
        reveal_strlit("[\n");
        reveal_strlit("]");
    }
    let mut f = String::new();
    f.append("[\n");
    append_rows(&mut f, data);
    f.append("]");
    assert(f@ =~= hex_dump(data@));
    f
}

/// The dump of `data`, with zero bytes added until the last row is full.
pub fn dump_hex(data: &[u8]) -> (out: String)
    ensures
        out@ == hex_dump(padded(data@)),
{
    let mut padded_data = slice_to_vec(data);
    while padded_data.len() % ROW_BYTES != 0
        invariant
            data@.len() <= padded_data@.len() < data@.len() + 64,
            padded_data@ == data@ + Seq::new(
                (padded_data@.len() - data@.len()) as nat,
                |i: int| 0u8,
            ),
            padded_data@.len() - data@.len() <= (64 - data@.len() % 64) % 64,
        decreases (64 - padded_data@.len() % 64) % 64,
    {
        let ghost before = padded_data@;
        padded_data.push(0);
        assert(padded_data@ =~= data@ + Seq::new(
            (padded_data@.len() - data@.len()) as nat,
            |i: int| 0u8,
        ));
    }
    assert(padded_data@ =~= padded(data@));
    dump_hex_unpadded(padded_data.as_slice())
}

/// The dump of `data` as `dump_hex` gives it, unless `data` is longer than
/// 4096 bytes: then a single line that states its length.
pub fn dump_truncated_hex(data: &[u8]) -> (out: String)
    ensures
        out@ == if data@.len() > TRUNCATION_LIMIT {
            hex_summary(data@.len())
        } else {
            hex_dump(padded(data@))
        },
{
    if data.len() > TRUNCATION_LIMIT {
        proof {
            reveal_strlit("[\n\t < ");
            reveal_strlit(" bytes >\n]");
        }
        let mut f = String::new();
        f.append("[\n\t < ");
        append_decimal(&mut f, data.len());
        f.append(" bytes >\n]");
        assert(f@ =~= hex_summary(data@.len()));
        f
    } else {
        dump_hex(data)
    }
}

} // verus!
