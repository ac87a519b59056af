//! Verified rendering of integers as decimal and hexadecimal text.
//!
//! These helpers let the library build exact, fully specified message and
//! identifier strings without going through opaque formatting machinery.

use vstd::prelude::*;

verus! {

/// The decimal digit character for a value in `0..10`.
pub open spec fn spec_dec_digit(d: int) -> char {
    if d == 0 {
        '0'
    } else if d == 1 {
        '1'
    } else if d == 2 {
        '2'
    } else if d == 3 {
        '3'
    } else if d == 4 {
        '4'
    } else if d == 5 {
        '5'
    } else if d == 6 {
        '6'
    } else if d == 7 {
        '7'
    } else if d == 8 {
        '8'
    } else {
        '9'
    }
}

/// The decimal rendering of a non-negative integer, most significant digit
/// first, with no leading zeros (except for the value zero itself).
pub open spec fn spec_dec(n: int) -> Seq<char>
    recommends
        n >= 0,
    decreases n,
{
    if n < 10 {
        seq![spec_dec_digit(n)]
    } else {
        spec_dec(n / 10).push(spec_dec_digit(n % 10))
    }
}

/// One decimal digit as a string slice.
fn dec_digit_str(d: u64) -> (s: &'static str)
    requires
        d < 10,
    ensures
        s@ =~= seq![spec_dec_digit(d as int)],
{
    proof {
        reveal_strlit("0");
        reveal_strlit("1");
        reveal_strlit("2");
        reveal_strlit("3");
        reveal_strlit("4");
        reveal_strlit("5");
        reveal_strlit("6");
        reveal_strlit("7");
        reveal_strlit("8");
        reveal_strlit("9");
    }
    match d {
        0 => "0",
        1 => "1",
        2 => "2",
        3 => "3",
        4 => "4",
        5 => "5",
        6 => "6",
        7 => "7",
        8 => "8",
        _ => "9",
    }
}

/// Render a `u64` in decimal.
pub fn dec_u64(n: u64) -> (s: String)
    ensures
        s@ == spec_dec(n as int),
    decreases n,
{
    if n < 10 {
        let digit = dec_digit_str(n);
        let s = digit.to_owned();
        assert(s@ =~= spec_dec(n as int));
        s
    } else {
        let mut s = dec_u64(n / 10);
        s.append(dec_digit_str(n % 10));
        assert(s@ =~= spec_dec(n as int));
        s
    }
}

/// The hexadecimal digit character (lower case) for a value in `0..16`.
pub open spec fn spec_hex_digit(d: int) -> char {
    if d < 10 {
        spec_dec_digit(d)
    } else if d == 10 {
        'a'
    } else if d == 11 {
        'b'
    } else if d == 12 {
        'c'
    } else if d == 13 {
        'd'
    } else if d == 14 {
        'e'
    } else {
        'f'
    }
}

/// Whether a character is a lower-case hexadecimal digit.
pub open spec fn spec_is_hex_char(c: char) -> bool {
    ('0' <= c && c <= '9') || ('a' <= c && c <= 'f')
}

/// The nibble of `v` that the `i`-th character of its 32-digit rendering
/// shows: nibble 31 - i, counting nibbles from the least significant end.
pub open spec fn spec_nibble(v: u128, i: int) -> u128
    recommends
        0 <= i < 32,
{
    (v >> (((31 - i) * 4) as u128)) & 0xf
}

/// The 32-character, zero-padded, lower-case hexadecimal rendering of a
/// `u128`, most significant nibble first.
pub open spec fn spec_hex32(v: u128) -> Seq<char> {
    Seq::new(32, |i: int| spec_hex_digit(spec_nibble(v, i) as int))
}

/// One hexadecimal digit as a string slice.
fn hex_digit_str(d: u64) -> (s: &'static str)
    requires
        d < 16,
    ensures
        s@ =~= seq![spec_hex_digit(d as int)],
{
    if d < 10 {
        dec_digit_str(d)
    } else {
        proof {
            reveal_strlit("a");
            reveal_strlit("b");
            reveal_strlit("c");
            reveal_strlit("d");
            reveal_strlit("e");
            reveal_strlit("f");
        }
        match d {
            10 => "a",
            11 => "b",
            12 => "c",
            13 => "d",
            14 => "e",
            _ => "f",
        }
    }
}

/// Every digit of a 32-character hexadecimal rendering is a hex character.
pub proof fn lemma_hex32_chars(v: u128)
    ensures
        spec_hex32(v).len() == 32,
        forall|i: int| 0 <= i < 32 ==> spec_is_hex_char(#[trigger] spec_hex32(v)[i]),
{
    assert forall|i: int| 0 <= i < 32 implies spec_is_hex_char(#[trigger] spec_hex32(v)[i]) by {
        let sh = ((31 - i) * 4) as u128;
        assert((v >> sh) & 0xf < 16) by (bit_vector);
        assert(spec_nibble(v, i) == (v >> sh) & 0xf);
    }
}

/// Render a `u128` as 32 zero-padded lower-case hexadecimal characters.
pub fn hex32_u128(v: u128) -> (s: String)
    ensures
        s@ == spec_hex32(v),
{
    let mut s = String::new();
    let mut i: usize = 0;
    while i < 32
        invariant
            i <= 32,
            s@ =~= spec_hex32(v).take(i as int),
        decreases 32 - i,
    {
        let shift: u128 = ((31 - i) as u128) * 4;
        let nibble_wide: u128 = (v >> shift) & 0xf;
        proof {
            assert(nibble_wide < 16) by (bit_vector)
                requires
                    nibble_wide == (v >> shift) & 0xf,
            ;
            assert(shift == ((31 - (i as int)) * 4) as u128);
            assert(nibble_wide == spec_nibble(v, i as int));
        }
        let nibble: u64 = nibble_wide as u64;
        s.append(hex_digit_str(nibble));
        assert(s@ =~= spec_hex32(v).take(i as int + 1));
        i = i + 1;
    }
    assert(s@ =~= spec_hex32(v));
    s
}

} // verus!
