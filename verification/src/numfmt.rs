//! Decimal rendering of unsigned numbers, used for byte counts and for
//! the fallback display of a connection identifier.

use vstd::prelude::*;
use vstd::string::*;
use crate::text::push_char;

verus! {

/// The decimal digit character for a value below ten.
pub open spec fn dec_digit(d: int) -> char {
    if d == 0 {
        '0'
    } else if d == 1 {
        '1'
    } else if d == 2 {
        '2'
    } else if d == 3 {
        '3'
    } else if d == 4 {
        '4'
    } else if d == 5 {
        '5'
    } else if d == 6 {
        '6'
    } else if d == 7 {
        '7'
    } else if d == 8 {
        '8'
    } else {
        '9'
    }
}

/// The usual decimal rendering of a non-negative number: most
/// significant digit first, no leading zeros except for zero itself.
pub open spec fn dec_of(n: int) -> Seq<char>
    decreases n
        when n >= 0
{
    if n < 10 {
        seq![dec_digit(n)]
    } else {
        dec_of(n / 10) + seq![dec_digit(n % 10)]
    }
}

/// The digit character for a concrete value below ten.
pub fn dec_digit_char(d: u64) -> (c: char)
    requires
        d < 10,
    ensures
        c == dec_digit(d as int),
{
    if d == 0 {
        '0'
    } else if d == 1 {
        '1'
    } else if d == 2 {
        '2'
    } else if d == 3 {
        '3'
    } else if d == 4 {
        '4'
    } else if d == 5 {
        '5'
    } else if d == 6 {
        '6'
    } else if d == 7 {
        '7'
    } else if d == 8 {
        '8'
    } else {
        '9'
    }
}

/// Renders a number in decimal.
pub fn u64_to_dec(n: u64) -> (r: String)
    ensures
        r@ == dec_of(n as int),
    decreases n,
{
    if n < 10 {
        let mut r = String::new();
        push_char(&mut r, dec_digit_char(n));
        assert(r@ =~= dec_of(n as int));
        r
    } else {
        let mut r = u64_to_dec(n / 10);
        push_char(&mut r, dec_digit_char(n % 10));
        assert(r@ =~= dec_of(n as int));
        r
    }
}

} // verus!
