//! Decimal and hexadecimal formatting of integers, used for attribute
//! values such as `data-source-line` and for client identifiers.

use vstd::prelude::*;

verus! {

/// The character for one decimal digit.
pub open spec fn dec_digit(d: int) -> char {
    if d == 0 {
        '0'
    } else if d == 1 {
        '1'
    } else if d == 2 {
        '2'
    } else if d == 3 {
        '3'
    } else if d == 4 {
        '4'
    } else if d == 5 {
        '5'
    } else if d == 6 {
        '6'
    } else if d == 7 {
        '7'
    } else if d == 8 {
        '8'
    } else {
        '9'
    }
}

/// The decimal rendering of a non-negative integer, without leading zeros
/// (except for the number zero itself).
pub open spec fn spec_dec(n: int) -> Seq<char>
    decreases n,
{
    if n < 10 {
        seq![dec_digit(n)]
    } else {
        spec_dec(n / 10).push(dec_digit(n % 10))
    }
}

/// The character for one hexadecimal digit, lower case.
pub open spec fn hex_digit(d: int) -> char {
    if d < 10 {
        dec_digit(d)
    } else if d == 10 {
        'a'
    } else if d == 11 {
        'b'
    } else if d == 12 {
        'c'
    } else if d == 13 {
        'd'
    } else if d == 14 {
        'e'
    } else {
        'f'
    }
}

/// The fixed-width hexadecimal rendering of a non-negative integer,
/// lower case, with leading zeros up to `width` digits.
pub open spec fn spec_hex(n: int, width: nat) -> Seq<char>
    decreases width,
{
    if width == 0 {
        Seq::empty()
    } else {
        spec_hex(n / 16, (width - 1) as nat).push(hex_digit(n % 16))
    }
}

/// A fixed-width hexadecimal rendering has exactly its width in digits.
pub proof fn lemma_spec_hex_len(n: int, width: nat)
    ensures
        spec_hex(n, width).len() == width,
    decreases width,
{
    if width > 0 {
        lemma_spec_hex_len(n / 16, (width - 1) as nat);
    }
}

/// The character for one decimal digit.
fn dec_digit_char(d: u64) -> (c: char)
    requires
        d < 10,
    ensures
        c == dec_digit(d as int),
{
    match d {
        0 => '0',
        1 => '1',
        2 => '2',
        3 => '3',
        4 => '4',
        5 => '5',
        6 => '6',
        7 => '7',
        8 => '8',
        _ => '9',
    }
}

/// The character for one hexadecimal digit, lower case.
fn hex_digit_char(d: u8) -> (c: char)
    requires
        d < 16,
    ensures
        c == hex_digit(d as int),
{
    match d {
        0 => '0',
        1 => '1',
        2 => '2',
        3 => '3',
        4 => '4',
        5 => '5',
        6 => '6',
        7 => '7',
        8 => '8',
        9 => '9',
        10 => 'a',
        11 => 'b',
        12 => 'c',
        13 => 'd',
        14 => 'e',
        _ => 'f',
    }
}

/// Renders a number in decimal, without leading zeros.
pub fn u64_to_string(n: u64) -> (s: String)
    ensures
        s@ == spec_dec(n as int),
    decreases n,
{
    if n < 10 {
        crate::escape::char_to_string(dec_digit_char(n))
    } else {
        proof {
            assert(n / 10 < n && n % 10 < 10) by (nonlinear_arith)
                requires
                    n >= 10,
            ;
        }
        let mut s = u64_to_string(n / 10);
        append_char(&mut s, dec_digit_char(n % 10));
        s
    }
}

/// Renders a number in decimal, without leading zeros.
pub fn usize_to_string(n: usize) -> (s: String)
    ensures
        s@ == spec_dec(n as int),
{
    u64_to_string(n as u64)
}

/// Renders a number in fixed-width lower-case hexadecimal.
pub fn u128_to_hex(n: u128, width: u32) -> (s: String)
    ensures
        s@ == spec_hex(n as int, width as nat),
    decreases width,
{
    if width == 0 {
        let s = String::new();
        proof {
            assert(s@ =~= spec_hex(n as int, 0));
        }
        s
    } else {
        proof {
            assert(n as int / 16 == (n / 16) as int && 0 <= n as int % 16 < 16 && n as int % 16 == (
            n % 16) as int) by (nonlinear_arith);
        }
        let mut s = u128_to_hex(n / 16, width - 1);
        append_char(&mut s, hex_digit_char((n % 16) as u8));
        s
    }
}

/// Appends one character.
fn append_char(s: &mut String, c: char)
    ensures
        final(s)@ == old(s)@.push(c),
{
    let t = crate::escape::char_to_string(c);
    s.append(t.as_str());
    proof {
        assert(old(s)@ + seq![c] =~= old(s)@.push(c));
    }
}

} // verus!
