//! Decimal and hexadecimal rendering of integers into strings.
use vstd::prelude::*;
use vstd::string::*;

verus! {

/// The character of a decimal digit.
pub open spec fn digit_char(d: nat) -> char {
    if d == 0 {
        '0'
    } else if d == 1 {
        '1'
    } else if d == 2 {
        '2'
    } else if d == 3 {
        '3'
    } else if d == 4 {
        '4'
    } else if d == 5 {
        '5'
    } else if d == 6 {
        '6'
    } else if d == 7 {
        '7'
    } else if d == 8 {
        '8'
    } else {
        '9'
    }
}

/// The character of an upper-case hexadecimal digit.
pub open spec fn hex_char(d: nat) -> char {
    if d < 10 {
        digit_char(d)
    } else if d == 10 {
        'A'
    } else if d == 11 {
        'B'
    } else if d == 12 {
        'C'
    } else if d == 13 {
        'D'
    } else if d == 14 {
        'E'
    } else {
        'F'
    }
}

/// The shortest decimal numeral of `n`.
pub open spec fn decimal(n: nat) -> Seq<char>
    decreases n,
{
    if n < 10 {
        seq![digit_char(n)]
    } else {
        decimal(n / 10).push(digit_char(n % 10))
    }
}

/// The decimal numeral of `n`, padded with a leading zero to two digits.
pub open spec fn decimal2(n: nat) -> Seq<char> {
    if n < 10 {
        seq!['0'].add(decimal(n))
    } else {
        decimal(n)
    }
}

/// Two upper-case hexadecimal digits of a byte.
pub open spec fn hex2(b: u8) -> Seq<char> {
    seq![hex_char(b as nat / 16), hex_char(b as nat % 16)]
}

/// The one-character string of a hexadecimal digit.
fn hex_digit_str(d: u8) -> (r: &'static str)
    requires
        d < 16,
    ensures
        r@ == seq![hex_char(d as nat)],
{
    proof {
        reveal_strlit("0");
        reveal_strlit("1");
        reveal_strlit("2");
        reveal_strlit("3");
        reveal_strlit("4");
        reveal_strlit("5");
        reveal_strlit("6");
        reveal_strlit("7");
        reveal_strlit("8");
        reveal_strlit("9");
        reveal_strlit("A");
        reveal_strlit("B");
        reveal_strlit("C");
        reveal_strlit("D");
        reveal_strlit("E");
        reveal_strlit("F");
    }
    match d {
        0 => "0",
        1 => "1",
        2 => "2",
        3 => "3",
        4 => "4",
        5 => "5",
        6 => "6",
        7 => "7",
        8 => "8",
        9 => "9",
        10 => "A",
        11 => "B",
        12 => "C",
        13 => "D",
        14 => "E",
        _ => "F",
    }
}

/// Appends the decimal numeral of `n`.
pub fn push_decimal(s: &mut String, n: u64)
    ensures
        final(s)@ == old(s)@ + decimal(n as nat),
    decreases n,
{
    if n >= 10 {
        push_decimal(s, n / 10);
    }
    s.append(hex_digit_str((n % 10) as u8));
    proof {
        if n >= 10 {
            assert(decimal(n as nat) == decimal((n / 10) as nat).push(digit_char((n % 10) as nat)));
        }
    }
    assert(final(s)@ =~= old(s)@ + decimal(n as nat));
}

/// Appends the decimal numeral of `n`, padded to at least two digits.
pub fn push_decimal2(s: &mut String, n: u64)
    ensures
        final(s)@ == old(s)@ + decimal2(n as nat),
{
    if n < 10 {
        s.append("0");
        proof {
            reveal_strlit("0");
        }
    }
    push_decimal(s, n);
    assert(final(s)@ =~= old(s)@ + decimal2(n as nat));
}

/// Appends two upper-case hexadecimal digits of `b`.
pub fn push_hex2(s: &mut String, b: u8)
    ensures
        final(s)@ == old(s)@ + hex2(b),
{
    s.append(hex_digit_str(b / 16));
    s.append(hex_digit_str(b % 16));
    assert(final(s)@ =~= old(s)@ + hex2(b));
}

} // verus!
