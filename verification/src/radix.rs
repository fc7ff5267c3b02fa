//! Rendering of unsigned numbers as digit strings in a numeral base, used
//! for byte offsets in the configured location radix and for hex escapes.

use vstd::prelude::*;
use vstd::arithmetic::div_mod::lemma_div_decreases;
use crate::chars::push_char;
use crate::config::{radix_base, LocationRadix};

verus! {

/// The lower-case digit character for one digit value below 16.
pub open spec fn digit_char(d: int) -> char {
    if d == 0 {
        '0'
    } else if d == 1 {
        '1'
    } else if d == 2 {
        '2'
    } else if d == 3 {
        '3'
    } else if d == 4 {
        '4'
    } else if d == 5 {
        '5'
    } else if d == 6 {
        '6'
    } else if d == 7 {
        '7'
    } else if d == 8 {
        '8'
    } else if d == 9 {
        '9'
    } else if d == 10 {
        'a'
    } else if d == 11 {
        'b'
    } else if d == 12 {
        'c'
    } else if d == 13 {
        'd'
    } else if d == 14 {
        'e'
    } else {
        'f'
    }
}

/// The digits of `n` in the given base, most significant first, with no
/// leading zeros; zero itself is the single digit `0`.
pub open spec fn digits_in_base(n: nat, base: nat) -> Seq<char>
    decreases n,
        when base >= 2
        via digits_in_base_decreases
{
    if n < base {
        seq![digit_char(n as int)]
    } else {
        digits_in_base(n / base, base).push(digit_char((n % base) as int))
    }
}

#[via_fn]
proof fn digits_in_base_decreases(n: nat, base: nat) {
    if n >= base {
        lemma_div_decreases(n as int, base as int);
    }
}

/// One digit character, executable.
pub fn digit_to_char(d: usize) -> (c: char)
    requires
        d < 16,
    ensures
        c == digit_char(d as int),
{
    match d {
        0 => '0',
        1 => '1',
        2 => '2',
        3 => '3',
        4 => '4',
        5 => '5',
        6 => '6',
        7 => '7',
        8 => '8',
        9 => '9',
        10 => 'a',
        11 => 'b',
        12 => 'c',
        13 => 'd',
        14 => 'e',
        _ => 'f',
    }
}

/// Render `n` in the given base, most significant digit first.
pub fn radix_digits(n: usize, base: usize) -> (s: String)
    requires
        2 <= base <= 16,
    ensures
        s@ == digits_in_base(n as nat, base as nat),
    decreases n,
{
    if n < base {
        let mut s = String::new();
        push_char(&mut s, digit_to_char(n));
        proof {
            assert(s@ =~= digits_in_base(n as nat, base as nat));
        }
        s
    } else {
        proof {
            lemma_div_decreases(n as int, base as int);
        }
        let mut s = radix_digits(n / base, base);
        push_char(&mut s, digit_to_char(n % base));
        s
    }
}

/// The formatted offset under a location radix.
pub open spec fn offset_digits(offset: nat, r: LocationRadix) -> Seq<char> {
    digits_in_base(offset, radix_base(r) as nat)
}

/// Format a byte offset in the configured location radix.
pub fn format_offset(offset: usize, r: LocationRadix) -> (s: String)
    ensures
        s@ == offset_digits(offset as nat, r),
{
    let base: usize = match r {
        LocationRadix::Octal => 8,
        LocationRadix::Decimal => 10,
        LocationRadix::Hex => 16,
    };
    radix_digits(offset, base)
}

} // verus!
