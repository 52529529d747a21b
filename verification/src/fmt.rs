//! Decimal and hexadecimal text of numbers.
use vstd::prelude::*;

verus! {

/// The decimal digit for `d` (below ten).
pub open spec fn digit(d: nat) -> char {
    if d == 0 {
        '0'
    } else if d == 1 {
        '1'
    } else if d == 2 {
        '2'
    } else if d == 3 {
        '3'
    } else if d == 4 {
        '4'
    } else if d == 5 {
        '5'
    } else if d == 6 {
        '6'
    } else if d == 7 {
        '7'
    } else if d == 8 {
        '8'
    } else {
        '9'
    }
}

/// The upper-case hexadecimal digit for `d` (below sixteen).
pub open spec fn hex_digit(d: nat) -> char {
    if d < 10 {
        digit(d)
    } else if d == 10 {
        'A'
    } else if d == 11 {
        'B'
    } else if d == 12 {
        'C'
    } else if d == 13 {
        'D'
    } else if d == 14 {
        'E'
    } else {
        'F'
    }
}

/// `n` in decimal, without leading zeros (`format!("{}", n)`).
pub open spec fn decimal(n: nat) -> Seq<char>
    decreases n,
{
    if n < 10 {
        seq![digit(n)]
    } else {
        decimal(n / 10).push(digit(n % 10))
    }
}

/// `n` in decimal, padded with zeros to at least two digits (`format!("{:02}", n)`).
pub open spec fn decimal2(n: nat) -> Seq<char> {
    if n < 10 {
        seq!['0', digit(n)]
    } else {
        decimal(n)
    }
}

/// `b` as two upper-case hexadecimal digits (`format!("{:02X}", b)`).
pub open spec fn hex2(b: u8) -> Seq<char> {
    seq![hex_digit(b as nat / 16), hex_digit(b as nat % 16)]
}

fn digit_char(d: u64) -> (c: char)
    requires
        d < 10,
    ensures
        c == digit(d as nat),
{
    if d == 0 {
        '0'
    } else if d == 1 {
        '1'
    } else if d == 2 {
        '2'
    } else if d == 3 {
        '3'
    } else if d == 4 {
        '4'
    } else if d == 5 {
        '5'
    } else if d == 6 {
        '6'
    } else if d == 7 {
        '7'
    } else if d == 8 {
        '8'
    } else {
        '9'
    }
}

fn hex_char(d: u8) -> (c: char)
    requires
        d < 16,
    ensures
        c == hex_digit(d as nat),
{
    if d < 10 {
        digit_char(d as u64)
    } else if d == 10 {
        'A'
    } else if d == 11 {
        'B'
    } else if d == 12 {
        'C'
    } else if d == 13 {
        'D'
    } else if d == 14 {
        'E'
    } else {
        'F'
    }
}

/// The decimal digits of `n`.
pub fn decimal_chars(n: u64) -> (v: Vec<char>)
    ensures
        v@ == decimal(n as nat),
    decreases n,
{
    if n < 10 {
        let mut v: Vec<char> = Vec::new();
        v.push(digit_char(n));
        assert(v@ =~= seq![digit(n as nat)]);
        v
    } else {
        let mut v = decimal_chars(n / 10);
        v.push(digit_char(n % 10));
        v
    }
}

/// The decimal digits of `n`, at least two.
pub fn decimal2_chars(n: u64) -> (v: Vec<char>)
    ensures
        v@ == decimal2(n as nat),
{
    if n < 10 {
        let mut v: Vec<char> = Vec::new();
        v.push('0');
        v.push(digit_char(n));
        assert(v@ =~= seq!['0', digit(n as nat)]);
        v
    } else {
        decimal_chars(n)
    }
}

/// Appends the two hexadecimal digits of `b`.
pub fn push_hex2(v: &mut Vec<char>, b: u8)
    ensures
        final(v)@ == old(v)@ + hex2(b),
{
    v.push(hex_char(b / 16));
    v.push(hex_char(b % 16));
    assert(final(v)@ =~= old(v)@ + hex2(b));
}

} // verus!
