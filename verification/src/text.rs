//! Small verified helpers for building strings: appending single characters
//! and rendering integers in decimal.

use vstd::prelude::*;

verus! {

/// Relies on `String::push` from std: appends exactly the given character to
/// the end of the string.
pub assume_specification[ String::push ](s: &mut String, c: char)
    ensures
        final(s)@ == old(s)@.push(c),
;

/// The character for a single decimal digit.
pub open spec fn spec_digit(d: int) -> char {
    if d == 0 {
        '0'
    } else if d == 1 {
        '1'
    } else if d == 2 {
        '2'
    } else if d == 3 {
        '3'
    } else if d == 4 {
        '4'
    } else if d == 5 {
        '5'
    } else if d == 6 {
        '6'
    } else if d == 7 {
        '7'
    } else if d == 8 {
        '8'
    } else {
        '9'
    }
}

/// Decimal rendering of a natural number, most significant digit first,
/// without leading zeros (except for the number 0 itself).
pub open spec fn spec_dec_nat(n: nat) -> Seq<char>
    decreases n,
{
    if n < 10 {
        seq![spec_digit(n as int)]
    } else {
        spec_dec_nat(n / 10) + seq![spec_digit((n % 10) as int)]
    }
}

/// Decimal rendering of a signed integer: a leading '-' for negative values.
pub open spec fn spec_dec_int(n: int) -> Seq<char> {
    if n < 0 {
        seq!['-'] + spec_dec_nat((-n) as nat)
    } else {
        spec_dec_nat(n as nat)
    }
}

fn push_digit(s: &mut String, d: u64)
    requires
        d < 10,
    ensures
        final(s)@ == old(s)@ + seq![spec_digit(d as int)],
{
    let c: char = if d == 0 {
        '0'
    } else if d == 1 {
        '1'
    } else if d == 2 {
        '2'
    } else if d == 3 {
        '3'
    } else if d == 4 {
        '4'
    } else if d == 5 {
        '5'
    } else if d == 6 {
        '6'
    } else if d == 7 {
        '7'
    } else if d == 8 {
        '8'
    } else {
        '9'
    };
    s.push(c);
    assert(final(s)@ == old(s)@ + seq![spec_digit(d as int)]);
}

/// Appends the decimal rendering of `n` to `s`.
pub fn push_dec_u64(s: &mut String, n: u64)
    ensures
        final(s)@ == old(s)@ + spec_dec_nat(n as nat),
    decreases n,
{
    if n >= 10 {
        push_dec_u64(s, n / 10);
        push_digit(s, n % 10);
        assert(final(s)@ == old(s)@ + spec_dec_nat(n as nat));
    } else {
        push_digit(s, n);
    }
}

/// Appends the decimal rendering of `n`, with a sign when negative, to `s`.
pub fn push_dec_i64(s: &mut String, n: i64)
    ensures
        final(s)@ == old(s)@ + spec_dec_int(n as int),
{
    if n >= 0 {
        push_dec_u64(s, n as u64);
    } else {
        s.push('-');
        let m: u64 = if n == i64::MIN {
            9223372036854775808u64
        } else {
            (-n) as u64
        };
        assert(m as int == -(n as int));
        push_dec_u64(s, m);
        assert(final(s)@ == old(s)@ + spec_dec_int(n as int));
    }
}

/// The decimal rendering of a signed integer as a fresh string.
pub fn i64_to_string(n: i64) -> (r: String)
    ensures
        r@ == spec_dec_int(n as int),
{
    let mut s = String::new();
    push_dec_i64(&mut s, n);
    s
}

} // verus!
