//! The printability classifier: decides whether one code unit counts as a
//! string character under the active encoding and whitespace policy.

use vstd::prelude::*;
use crate::chars::is_unicode_scalar;
use crate::config::Encoding;

verus! {

/// The whitespace code units that the whitespace policy, when enabled, adds
/// to the accepted set for every encoding: space, tab, newline, vertical
/// tab, form feed, carriage return.
pub open spec fn is_accepted_whitespace(v: u32) -> bool {
    v == 0x20 || v == 0x09 || v == 0x0A || v == 0x0B || v == 0x0C || v == 0x0D
}

/// The graphic characters of 7-bit ASCII: `!` through `~`. Space is not
/// graphic; it is accepted only through the whitespace policy.
pub open spec fn is_ascii_graphic(v: u32) -> bool {
    0x21 <= v && v <= 0x7E
}

/// Whether one code unit counts as a string character.
///
/// - 7-bit: graphic ASCII only; values with the high bit set never qualify.
/// - 8-bit: graphic ASCII, or a high byte outside the `0x80..=0x9F` control
///   range (a locale-free approximation of single-byte printability).
/// - 16/32-bit: the unit must be a valid Unicode scalar value, and is taken
///   as graphic when it is graphic ASCII or lies at `0xA0` and above (an
///   approximation that rules out the ASCII and `0x80..=0x9F` control
///   ranges, space and delete, without consulting category tables).
///
/// Whitespace inclusion, when enabled, additionally accepts the characters
/// of [`is_accepted_whitespace`] under every encoding.
pub open spec fn is_printable_unit(v: u32, e: Encoding, whitespace: bool) -> bool {
    let graphic = match e {
        Encoding::SevenBit => is_ascii_graphic(v),
        Encoding::EightBit => is_ascii_graphic(v) || (0xA0 <= v && v <= 0xFF),
        _ => is_unicode_scalar(v) && (is_ascii_graphic(v) || 0xA0 <= v),
    };
    graphic || (whitespace && is_accepted_whitespace(v))
}

/// Classify one code unit under the given encoding and whitespace policy.
pub fn is_printable(v: u32, e: Encoding, whitespace: bool) -> (r: bool)
    ensures
        r == is_printable_unit(v, e, whitespace),
{
    let graphic = match e {
        Encoding::SevenBit => 0x21 <= v && v <= 0x7E,
        Encoding::EightBit => (0x21 <= v && v <= 0x7E) || (0xA0 <= v && v <= 0xFF),
        _ => {
            (v < 0xD800 || (0xE000 <= v && v <= 0x10FFFF))
                && ((0x21 <= v && v <= 0x7E) || 0xA0 <= v)
        },
    };
    graphic || (whitespace && (v == 0x20 || v == 0x09 || v == 0x0A || v == 0x0B || v == 0x0C || v == 0x0D))
}

} // verus!
