//! Shared helpers: hex encoding of byte payloads and small string utilities.

use vstd::prelude::*;

verus! {

/// A path identifier within a trace (qlog `path`).
pub type PathId = String;

/// A correlation / group identifier (qlog `group_id`).
pub type GroupId = String;

/// A string of hexadecimal digits, two per byte, upper case.
pub type HexString = String;

/// The longest data payload, in bytes, that is reproduced in a trace record.
pub const MAX_LOG_DATA_LEN: usize = 64;

/// The upper-case hexadecimal digit for a value below 16.
pub open spec fn hex_digit(n: u8) -> char {
    if n == 0 {
        '0'
    } else if n == 1 {
        '1'
    } else if n == 2 {
        '2'
    } else if n == 3 {
        '3'
    } else if n == 4 {
        '4'
    } else if n == 5 {
        '5'
    } else if n == 6 {
        '6'
    } else if n == 7 {
        '7'
    } else if n == 8 {
        '8'
    } else if n == 9 {
        '9'
    } else if n == 10 {
        'A'
    } else if n == 11 {
        'B'
    } else if n == 12 {
        'C'
    } else if n == 13 {
        'D'
    } else if n == 14 {
        'E'
    } else {
        'F'
    }
}

/// The hexadecimal rendering of a byte sequence: two upper-case digits
/// for each byte, in order.
pub open spec fn hex_of(bytes: Seq<u8>) -> Seq<char>
    decreases bytes.len(),
{
    if bytes.len() == 0 {
        Seq::<char>::empty()
    } else {
        hex_of(bytes.drop_last()) + seq![
            hex_digit(bytes.last() / 16),
            hex_digit(bytes.last() % 16),
        ]
    }
}

proof fn lemma_hex_of_push(bytes: Seq<u8>, b: u8)
    ensures
        hex_of(bytes.push(b)) == hex_of(bytes) + seq![hex_digit(b / 16), hex_digit(b % 16)],
{
    assert(bytes.push(b).drop_last() =~= bytes);
    assert(bytes.push(b).last() == b);
}

/// Appends the single hex digit for `n` (below 16) to `out`.
fn push_hex_digit(out: &mut String, n: u8)
    requires
        n < 16,
    ensures
        final(out)@ == old(out)@ + seq![hex_digit(n)],
{
    proof {
        reveal_strlit("0");
        reveal_strlit("1");
        reveal_strlit("2");
        reveal_strlit("3");
        reveal_strlit("4");
        reveal_strlit("5");
        reveal_strlit("6");
        reveal_strlit("7");
        reveal_strlit("8");
        reveal_strlit("9");
        reveal_strlit("A");
        reveal_strlit("B");
        reveal_strlit("C");
        reveal_strlit("D");
        reveal_strlit("E");
        reveal_strlit("F");
    }
    if n == 0 {
        out.append("0");
    } else if n == 1 {
        out.append("1");
    } else if n == 2 {
        out.append("2");
    } else if n == 3 {
        out.append("3");
    } else if n == 4 {
        out.append("4");
    } else if n == 5 {
        out.append("5");
    } else if n == 6 {
        out.append("6");
    } else if n == 7 {
        out.append("7");
    } else if n == 8 {
        out.append("8");
    } else if n == 9 {
        out.append("9");
    } else if n == 10 {
        out.append("A");
    } else if n == 11 {
        out.append("B");
    } else if n == 12 {
        out.append("C");
    } else if n == 13 {
        out.append("D");
    } else if n == 14 {
        out.append("E");
    } else {
        out.append("F");
    }
    assert(final(out)@ =~= old(out)@ + seq![hex_digit(n)]);
}

/// Renders a byte slice as upper-case hexadecimal text, two digits per byte.
pub fn bytes_to_hexstring(bytes: &[u8]) -> (r: HexString)
    ensures
        r@ == hex_of(bytes@),
{
    let mut out = String::new();
    let mut i: usize = 0;
    while i < bytes.len()
        invariant
            i <= bytes.len(),
            out@ == hex_of(bytes@.subrange(0, i as int)),
        decreases bytes.len() - i,
    {
        let b = bytes[i];
        push_hex_digit(&mut out, b / 16);
        push_hex_digit(&mut out, b % 16);
        proof {
            lemma_hex_of_push(bytes@.subrange(0, i as int), b);
            assert(bytes@.subrange(0, i as int).push(b) =~= bytes@.subrange(0, i + 1 as int));
        }
        i = i + 1;
    }
    proof {
        assert(bytes@.subrange(0, bytes@.len() as int) =~= bytes@);
    }
    out
}

/// The decimal digit character for a value below 10.
pub open spec fn dec_digit(n: u64) -> char {
    if n == 0 {
        '0'
    } else if n == 1 {
        '1'
    } else if n == 2 {
        '2'
    } else if n == 3 {
        '3'
    } else if n == 4 {
        '4'
    } else if n == 5 {
        '5'
    } else if n == 6 {
        '6'
    } else if n == 7 {
        '7'
    } else if n == 8 {
        '8'
    } else {
        '9'
    }
}

/// The decimal rendering of a number, most significant digit first,
/// without leading zeroes (a single zero for the value zero).
pub open spec fn dec_str(n: nat) -> Seq<char>
    decreases n,
{
    if n < 10 {
        seq![dec_digit(n as u64)]
    } else {
        dec_str(n / 10).push(dec_digit((n % 10) as u64))
    }
}

/// Appends the single decimal digit for `n` (below 10) to `out`.
fn push_dec_digit(out: &mut String, n: u64)
    requires
        n < 10,
    ensures
        final(out)@ == old(out)@ + seq![dec_digit(n)],
{
    proof {
        reveal_strlit("0");
        reveal_strlit("1");
        reveal_strlit("2");
        reveal_strlit("3");
        reveal_strlit("4");
        reveal_strlit("5");
        reveal_strlit("6");
        reveal_strlit("7");
        reveal_strlit("8");
        reveal_strlit("9");
    }
    if n == 0 {
        out.append("0");
    } else if n == 1 {
        out.append("1");
    } else if n == 2 {
        out.append("2");
    } else if n == 3 {
        out.append("3");
    } else if n == 4 {
        out.append("4");
    } else if n == 5 {
        out.append("5");
    } else if n == 6 {
        out.append("6");
    } else if n == 7 {
        out.append("7");
    } else if n == 8 {
        out.append("8");
    } else {
        out.append("9");
    }
    assert(final(out)@ =~= old(out)@ + seq![dec_digit(n)]);
}

/// Renders a number as decimal text.
pub fn u64_to_dec_string(n: u64) -> (r: String)
    ensures
        r@ == dec_str(n as nat),
    decreases n,
{
    if n < 10 {
        let mut s = String::new();
        push_dec_digit(&mut s, n);
        assert(s@ =~= dec_str(n as nat));
        s
    } else {
        let mut s = u64_to_dec_string(n / 10);
        push_dec_digit(&mut s, n % 10);
        assert(s@ =~= dec_str(n as nat));
        s
    }
}

/// True when an optional path id is absent or holds the empty string;
/// such a path is left out of the serialized record.
pub fn is_empty_or_none(path: &Option<PathId>) -> (r: bool)
    ensures
        r == match path {
            Some(p) => p@.len() == 0,
            None => true,
        },
{
    match path {
        Some(p) => p.as_str().is_empty(),
        None => true,
    }
}

} // verus!
