//! Decimal numerals.

use vstd::prelude::*;

verus! {

/// The character of a decimal digit.
pub open spec fn digit_char(d: nat) -> char
    recommends
        d < 10,
{
    if d == 0 {
        '0'
    } else if d == 1 {
        '1'
    } else if d == 2 {
        '2'
    } else if d == 3 {
        '3'
    } else if d == 4 {
        '4'
    } else if d == 5 {
        '5'
    } else if d == 6 {
        '6'
    } else if d == 7 {
        '7'
    } else if d == 8 {
        '8'
    } else {
        '9'
    }
}

/// The `count` lowest decimal digits of a number, highest first.
pub open spec fn digits(n: nat, count: nat) -> Seq<char>
    decreases count,
{
    if count == 0 {
        Seq::empty()
    } else {
        digits(n / 10, (count - 1) as nat).push(digit_char(n % 10))
    }
}

/// The number of decimal digits that a number takes.
pub open spec fn digit_count(n: nat) -> nat
    decreases n,
{
    if n < 10 {
        1
    } else {
        1 + digit_count(n / 10)
    }
}

/// The decimal numeral of a number, with leading zeros up to `width` digits.
pub open spec fn padded(n: nat, width: nat) -> Seq<char> {
    if digit_count(n) < width {
        digits(n, width)
    } else {
        digits(n, digit_count(n))
    }
}

fn digit_to_char(d: u32) -> (c: char)
    requires
        d < 10,
    ensures
        c == digit_char(d as nat),
{
    if d == 0 {
        '0'
    } else if d == 1 {
        '1'
    } else if d == 2 {
        '2'
    } else if d == 3 {
        '3'
    } else if d == 4 {
        '4'
    } else if d == 5 {
        '5'
    } else if d == 6 {
        '6'
    } else if d == 7 {
        '7'
    } else if d == 8 {
        '8'
    } else {
        '9'
    }
}

fn count_digits(n: u32) -> (count: u32)
    ensures
        count == digit_count(n as nat),
        1 <= count <= 10,
    decreases n,
{
    if n < 10 {
        1
    } else {
        let rest = count_digits(n / 10);
        assert(rest <= 9) by {
            bound_digit_count(n as nat / 10);
        }
        1 + rest
    }
}

proof fn bound_digit_count(n: nat)
    requires
        n < 1_000_000_000,
    ensures
        digit_count(n) <= 9,
{
    reveal_with_fuel(digit_count, 10);
}

/// `String::push`: the text, with one character more at its end.
#[verifier::external_body]
pub(crate) fn push_char(out: &mut String, c: char)
    ensures
        final(out)@ == old(out)@.push(c),
{
    out.push(c)
}

fn push_digits(out: &mut String, n: u32, count: u32)
    ensures
        final(out)@ == old(out)@ + digits(n as nat, count as nat),
    decreases count,
{
    if count > 0 {
        push_digits(out, n / 10, count - 1);
        push_char(out, digit_to_char(n % 10));
    }
    proof {
        assert(final(out)@ =~= old(out)@ + digits(n as nat, count as nat));
    }
}

/// Appends the numeral of `n`, with leading zeros up to `width` digits.
pub fn push_padded(out: &mut String, n: u32, width: u32)
    ensures
        final(out)@ == old(out)@ + padded(n as nat, width as nat),
{
    let count = count_digits(n);
    if count < width {
        push_digits(out, n, width);
    } else {
        push_digits(out, n, count);
    }
}

} // verus!
