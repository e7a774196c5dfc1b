//! Rendering counters as decimal strings with thousands separators.

use vstd::prelude::*;
use vstd::slice::{slice_subrange, slice_to_vec};

verus! {

/// The character for one decimal digit value.
pub open spec fn spec_digit_char(d: int) -> char {
    if d == 0 {
        '0'
    } else if d == 1 {
        '1'
    } else if d == 2 {
        '2'
    } else if d == 3 {
        '3'
    } else if d == 4 {
        '4'
    } else if d == 5 {
        '5'
    } else if d == 6 {
        '6'
    } else if d == 7 {
        '7'
    } else if d == 8 {
        '8'
    } else {
        '9'
    }
}

/// The decimal digits of a number, most significant first, with no leading
/// zeros (a single '0' for zero itself).
pub open spec fn spec_decimal_digits(n: nat) -> Seq<char>
    decreases n,
{
    if n < 10 {
        seq![spec_digit_char(n as int)]
    } else {
        spec_decimal_digits(n / 10).push(spec_digit_char((n % 10) as int))
    }
}

/// Digits grouped in threes from the right, the groups joined by commas.
pub open spec fn spec_group_digits(s: Seq<char>) -> Seq<char>
    decreases s.len(),
{
    if s.len() <= 3 {
        s
    } else {
        spec_group_digits(s.take(s.len() - 3)) + seq![','] + s.skip(s.len() - 3)
    }
}

/// A number rendered in decimal with a comma between each group of three
/// digits.
pub open spec fn spec_formatted_number(n: u64) -> Seq<char> {
    spec_group_digits(spec_decimal_digits(n as nat))
}

fn digit_char(d: u8) -> (c: char)
    requires
        d < 10,
    ensures
        c == spec_digit_char(d as int),
{
    if d == 0 {
        '0'
    } else if d == 1 {
        '1'
    } else if d == 2 {
        '2'
    } else if d == 3 {
        '3'
    } else if d == 4 {
        '4'
    } else if d == 5 {
        '5'
    } else if d == 6 {
        '6'
    } else if d == 7 {
        '7'
    } else if d == 8 {
        '8'
    } else {
        '9'
    }
}

fn push_decimal_digits(n: u64, out: &mut Vec<char>)
    ensures
        final(out)@ == old(out)@ + spec_decimal_digits(n as nat),
    decreases n,
{
    if n < 10 {
        out.push(digit_char(n as u8));
        proof {
            assert(old(out)@ + spec_decimal_digits(n as nat) =~= old(out)@.push(
                spec_digit_char(n as int)));
        }
    } else {
        push_decimal_digits(n / 10, out);
        out.push(digit_char((n % 10) as u8));
        proof {
            assert(old(out)@ + spec_decimal_digits(n as nat) =~= (old(out)@ + spec_decimal_digits(
                (n / 10) as nat)).push(spec_digit_char((n % 10) as int)));
        }
    }
}

fn group_digits(digits: &[char]) -> (out: Vec<char>)
    ensures
        out@ == spec_group_digits(digits@),
    decreases digits@.len(),
{
    if digits.len() <= 3 {
        slice_to_vec(digits)
    } else {
        let split: usize = digits.len() - 3;
        let mut out = group_digits(slice_subrange(digits, 0, split));
        proof {
            assert(digits@.subrange(0, split as int) =~= digits@.take(digits@.len() - 3));
        }
        out.push(',');
        let mut k: usize = split;
        while k < digits.len()
            invariant
                split <= k <= digits@.len(),
                split + 3 == digits@.len(),
                out@ == spec_group_digits(digits@.take(digits@.len() - 3)) + seq![',']
                    + digits@.subrange(split as int, k as int),
            decreases digits@.len() - k,
        {
            out.push(digits[k]);
            proof {
                assert(digits@.subrange(split as int, k + 1) =~= digits@.subrange(
                    split as int, k as int).push(digits@[k as int]));
                assert(out@ =~= spec_group_digits(digits@.take(digits@.len() - 3)) + seq![',']
                    + digits@.subrange(split as int, k + 1));
            }
            k = k + 1;
        }
        proof {
            assert(digits@.subrange(split as int, digits@.len() as int) =~= digits@.skip(
                digits@.len() - 3));
        }
        out
    }
}

/// Relies on String::push: appends exactly the given character.
#[verifier::external_body]
fn push_char(s: &mut String, c: char)
    ensures
        final(s)@ == old(s)@.push(c),
{
    s.push(c);
}

/// Render a counter in decimal with a comma between each group of three
/// digits, as in 1,234,567.
pub fn format_number(n: u64) -> (s: String)
    ensures
        s@ == spec_formatted_number(n),
{
    let mut digits: Vec<char> = Vec::new();
    push_decimal_digits(n, &mut digits);
    proof {
        assert(digits@ =~= spec_decimal_digits(n as nat));
    }
    let grouped = group_digits(digits.as_slice());
    let mut s = String::new();
    let mut k: usize = 0;
    while k < grouped.len()
        invariant
            0 <= k <= grouped@.len(),
            s@ == grouped@.take(k as int),
            grouped@ == spec_formatted_number(n),
        decreases grouped@.len() - k,
    {
        push_char(&mut s, grouped[k]);
        proof {
            assert(grouped@.take(k + 1) =~= grouped@.take(k as int).push(grouped@[k as int]));
        }
        k = k + 1;
    }
    proof {
        assert(grouped@.take(grouped@.len() as int) =~= grouped@);
    }
    s
}

} // verus!
