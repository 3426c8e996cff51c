//! Plain-text building blocks of the line renderer: decimal and uppercase
//! hexadecimal digit strings, and runs of space characters.

use vstd::prelude::*;
use vstd::string::StringExecFns;

verus! {

/// The character for one digit value below 16, uppercase for 10–15.
pub open spec fn spec_digit_char(d: int) -> char {
    if d == 0 {
        '0'
    } else if d == 1 {
        '1'
    } else if d == 2 {
        '2'
    } else if d == 3 {
        '3'
    } else if d == 4 {
        '4'
    } else if d == 5 {
        '5'
    } else if d == 6 {
        '6'
    } else if d == 7 {
        '7'
    } else if d == 8 {
        '8'
    } else if d == 9 {
        '9'
    } else if d == 10 {
        'A'
    } else if d == 11 {
        'B'
    } else if d == 12 {
        'C'
    } else if d == 13 {
        'D'
    } else if d == 14 {
        'E'
    } else {
        'F'
    }
}

/// The decimal representation of a non-negative integer, without leading
/// zeroes (a single zero for zero itself).
pub open spec fn spec_decimal(n: int) -> Seq<char>
    decreases n,
{
    if n < 10 {
        seq![spec_digit_char(n)]
    } else {
        spec_decimal(n / 10).push(spec_digit_char(n % 10))
    }
}

/// One byte as exactly two uppercase hexadecimal digits.
pub open spec fn spec_hex_pair(b: u8) -> Seq<char> {
    seq![spec_digit_char(b as int / 16), spec_digit_char(b as int % 16)]
}

/// A run of `n` space characters.
pub open spec fn spec_spaces(n: int) -> Seq<char>
    decreases n,
{
    if n <= 0 {
        Seq::empty()
    } else {
        spec_spaces(n - 1).push(' ')
    }
}

/// The one-character string for a digit value below 16.
fn digit_str(d: u8) -> (r: &'static str)
    requires
        d < 16,
    ensures
        r@ == seq![spec_digit_char(d as int)],
{
    proof {
        reveal_strlit("0");
        reveal_strlit("1");
        reveal_strlit("2");
        reveal_strlit("3");
        reveal_strlit("4");
        reveal_strlit("5");
        reveal_strlit("6");
        reveal_strlit("7");
        reveal_strlit("8");
        reveal_strlit("9");
        reveal_strlit("A");
        reveal_strlit("B");
        reveal_strlit("C");
        reveal_strlit("D");
        reveal_strlit("E");
        reveal_strlit("F");
    }
    match d {
        0 => "0",
        1 => "1",
        2 => "2",
        3 => "3",
        4 => "4",
        5 => "5",
        6 => "6",
        7 => "7",
        8 => "8",
        9 => "9",
        10 => "A",
        11 => "B",
        12 => "C",
        13 => "D",
        14 => "E",
        _ => "F",
    }
}

/// The decimal digit string of a 32-bit tick value.
pub fn decimal_string(n: u32) -> (r: String)
    ensures
        r@ == spec_decimal(n as int),
{
    let mut m: u32 = n;
    let mut s: String = String::new();
    while m >= 10
        invariant
            spec_decimal(n as int) =~= spec_decimal(m as int) + s@,
        decreases m,
    {
        let d: u8 = (m % 10) as u8;
        let ghost prev = s@;
        s = digit_str(d).to_owned().concat(s.as_str());
        proof {
            assert(spec_decimal(m as int) == spec_decimal(m as int / 10).push(
                spec_digit_char(m as int % 10),
            ));
            assert(spec_decimal(m as int / 10).push(spec_digit_char(m as int % 10)) + prev
                =~= spec_decimal(m as int / 10) + s@);
        }
        m = m / 10;
    }
    let r = digit_str((m % 10) as u8).to_owned().concat(s.as_str());
    proof {
        assert(m % 10 == m as int);
        assert(spec_decimal(m as int) =~= seq![spec_digit_char(m as int)]);
        assert(r@ =~= spec_decimal(n as int));
    }
    r
}

/// One byte as exactly two uppercase hexadecimal digits.
pub fn hex_pair_string(b: u8) -> (r: String)
    ensures
        r@ == spec_hex_pair(b),
{
    let hi: u8 = b / 16;
    let lo: u8 = b % 16;
    let r = digit_str(hi).to_owned().concat(digit_str(lo));
    proof {
        assert(r@ =~= spec_hex_pair(b));
    }
    r
}

/// A run of `n` space characters.
pub fn space_string(n: usize) -> (r: String)
    ensures
        r@ == spec_spaces(n as int),
{
    let mut s: String = String::new();
    let mut i: usize = 0;
    while i < n
        invariant
            0 <= i <= n,
            s@ =~= spec_spaces(i as int),
        decreases n - i,
    {
        let ghost prev = s@;
        s.append(" ");
        proof {
            reveal_strlit(" ");
            assert(s@ == prev + " "@);
            assert(s@ =~= spec_spaces(i as int + 1));
        }
        i = i + 1;
    }
    s
}

/// The decimal representation never starts with a space and is non-empty.
pub proof fn lemma_decimal_len(n: int)
    requires
        n >= 0,
    ensures
        spec_decimal(n).len() >= 1,
    decreases n,
{
    if n >= 10 {
        lemma_decimal_len(n / 10);
    }
}

} // verus!
