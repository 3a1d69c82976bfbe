//! Decimal text of numbers.

use vstd::prelude::*;

verus! {

/// The decimal digits of `n`, most significant first; `0` is written as `"0"`.
pub open spec fn decimal_text(n: nat) -> Seq<char>
    decreases n,
{
    if n < 10 {
        seq![digit_char(n)]
    } else {
        decimal_text(n / 10).push(digit_char(n % 10))
    }
}

/// The character of a decimal digit.
pub open spec fn digit_char(d: nat) -> char {
    if d == 0 {
        '0'
    } else if d == 1 {
        '1'
    } else if d == 2 {
        '2'
    } else if d == 3 {
        '3'
    } else if d == 4 {
        '4'
    } else if d == 5 {
        '5'
    } else if d == 6 {
        '6'
    } else if d == 7 {
        '7'
    } else if d == 8 {
        '8'
    } else {
        '9'
    }
}

/// Writes a number as decimal text.
pub fn u64_to_decimal(x: u64) -> (r: String)
    ensures
        r@ == decimal_text(x as nat),
    decreases x,
{
    if x < 10 {
        let mut s = String::new();
        push_char(&mut s, decimal_digit(x));
        assert(s@ =~= decimal_text(x as nat));
        s
    } else {
        let mut s = u64_to_decimal(x / 10);
        push_char(&mut s, decimal_digit(x % 10));
        s
    }
}

/// Writes a byte as decimal text.
pub fn u8_to_decimal(u: u8) -> (r: String)
    ensures
        r@ == decimal_text(u as nat),
{
    u64_to_decimal(u as u64)
}

/// Writes a size as decimal text.
pub fn usize_to_decimal(x: usize) -> (r: String)
    ensures
        r@ == decimal_text(x as nat),
{
    u64_to_decimal(x as u64)
}

fn decimal_digit(d: u64) -> (c: char)
    requires
        d < 10,
    ensures
        c == digit_char(d as nat),
{
    if d == 0 {
        '0'
    } else if d == 1 {
        '1'
    } else if d == 2 {
        '2'
    } else if d == 3 {
        '3'
    } else if d == 4 {
        '4'
    } else if d == 5 {
        '5'
    } else if d == 6 {
        '6'
    } else if d == 7 {
        '7'
    } else if d == 8 {
        '8'
    } else {
        '9'
    }
}

/// `String::push` of std: the string grows by the character at its end.
#[verifier::external_body]
fn push_char(s: &mut String, c: char)
    ensures
        final(s)@ == old(s)@.push(c),
{
    s.push(c);
}

} // verus!
