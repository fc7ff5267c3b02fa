//! The display policy: maps a confirmed run's raw code units to visible
//! text. The policy is pure and stateless per run: the same units under the
//! same mode always yield the same text.
//!
//! Locale rendering and terminal highlight support are concerns of the
//! external output layer; the core renders both like the default mode, as
//! the Unicode scalar each code unit denotes.

use vstd::prelude::*;
use vstd::string::StringExecFns;
use crate::chars::{char_from_u32, is_unicode_scalar, push_char};
use crate::config::UnicodeDisplay;
use crate::radix::{digit_char, digit_to_char, digits_in_base, radix_digits};

verus! {

/// The placeholder that marks a code unit rendered as non-graphic or
/// invalid.
pub open spec fn placeholder() -> char {
    '?'
}

/// The hex escape of a value: `\u` followed by exactly four hex digits, or
/// eight for values beyond `0xFFFF`.
pub open spec fn escape_hex(v: u32) -> Seq<char> {
    if v <= 0xFFFF {
        seq![
            '\\',
            'u',
            digit_char((v as int / 0x1000) % 16),
            digit_char((v as int / 0x100) % 16),
            digit_char((v as int / 0x10) % 16),
            digit_char(v as int % 16),
        ]
    } else {
        seq![
            '\\',
            'u',
            digit_char((v as int / 0x10000000) % 16),
            digit_char((v as int / 0x1000000) % 16),
            digit_char((v as int / 0x100000) % 16),
            digit_char((v as int / 0x10000) % 16),
            digit_char((v as int / 0x1000) % 16),
            digit_char((v as int / 0x100) % 16),
            digit_char((v as int / 0x10) % 16),
            digit_char(v as int % 16),
        ]
    }
}

/// The bracketed hex form of a value: its hex digits between `<` and `>`,
/// two digits for byte values, the natural number of digits above that.
pub open spec fn hex_bracketed(v: u32) -> Seq<char> {
    let digits = if v < 0x100 {
        seq![digit_char(v as int / 16), digit_char(v as int % 16)]
    } else {
        digits_in_base(v as nat, 16)
    };
    seq!['<'] + digits + seq!['>']
}

/// The rendering of one code unit under a display mode.
///
/// - Rely-on-encoding (with locale and highlight falling back to it):
///   the Unicode scalar the unit denotes; a placeholder for a value that is
///   no scalar.
/// - Invalid: strict printable ASCII unchanged, a placeholder otherwise.
/// - Escape: ASCII unchanged, anything else as a `\u` hex escape.
/// - Hex: ASCII unchanged, anything else bracketed hex.
pub open spec fn render_unit(v: u32, mode: UnicodeDisplay) -> Seq<char> {
    match mode {
        UnicodeDisplay::Invalid => if 0x20 <= v && v <= 0x7E {
            seq![v as char]
        } else {
            seq![placeholder()]
        },
        UnicodeDisplay::Escape => if v < 0x80 {
            seq![v as char]
        } else {
            escape_hex(v)
        },
        UnicodeDisplay::Hex => if v < 0x80 {
            seq![v as char]
        } else {
            hex_bracketed(v)
        },
        _ => if is_unicode_scalar(v) {
            seq![v as char]
        } else {
            seq![placeholder()]
        },
    }
}

/// The rendering of the first `n` code units, concatenated in input order.
pub open spec fn render_prefix(values: Seq<u32>, n: int, mode: UnicodeDisplay) -> Seq<char>
    decreases n,
{
    if n <= 0 {
        Seq::empty()
    } else {
        render_prefix(values, n - 1, mode) + render_unit(values[n - 1], mode)
    }
}

/// The rendering of a whole run of code units.
pub open spec fn render_text(values: Seq<u32>, mode: UnicodeDisplay) -> Seq<char> {
    render_prefix(values, values.len() as int, mode)
}

/// Append the rendering of one code unit.
fn push_render_unit(s: &mut String, v: u32, mode: UnicodeDisplay)
    ensures
        final(s)@ == old(s)@ + render_unit(v, mode),
{
    match mode {
        UnicodeDisplay::Invalid => {
            if 0x20 <= v && v <= 0x7E {
                push_scalar_or_placeholder(s, v);
            } else {
                push_char(s, '?');
                proof {
                    assert(final(s)@ =~= old(s)@ + render_unit(v, mode));
                }
            }
        },
        UnicodeDisplay::Escape => {
            if v < 0x80 {
                push_scalar_or_placeholder(s, v);
            } else {
                push_char(s, '\\');
                push_char(s, 'u');
                if v <= 0xFFFF {
                    push_char(s, digit_to_char(((v / 0x1000) % 16) as usize));
                    push_char(s, digit_to_char(((v / 0x100) % 16) as usize));
                    push_char(s, digit_to_char(((v / 0x10) % 16) as usize));
                    push_char(s, digit_to_char((v % 16) as usize));
                } else {
                    push_char(s, digit_to_char(((v / 0x10000000) % 16) as usize));
                    push_char(s, digit_to_char(((v / 0x1000000) % 16) as usize));
                    push_char(s, digit_to_char(((v / 0x100000) % 16) as usize));
                    push_char(s, digit_to_char(((v / 0x10000) % 16) as usize));
                    push_char(s, digit_to_char(((v / 0x1000) % 16) as usize));
                    push_char(s, digit_to_char(((v / 0x100) % 16) as usize));
                    push_char(s, digit_to_char(((v / 0x10) % 16) as usize));
                    push_char(s, digit_to_char((v % 16) as usize));
                }
                proof {
                    assert(final(s)@ =~= old(s)@ + render_unit(v, mode));
                }
            }
        },
        UnicodeDisplay::Hex => {
            if v < 0x80 {
                push_scalar_or_placeholder(s, v);
            } else {
                push_char(s, '<');
                if v < 0x100 {
                    push_char(s, digit_to_char((v / 16) as usize));
                    push_char(s, digit_to_char((v % 16) as usize));
                } else {
                    let digits = radix_digits(v as usize, 16);
                    s.append(digits.as_str());
                }
                push_char(s, '>');
                proof {
                    assert(final(s)@ =~= old(s)@ + render_unit(v, mode));
                }
            }
        },
        _ => {
            push_scalar_or_placeholder(s, v);
        },
    }
}

/// Append the scalar a value denotes, or the placeholder when it is none.
fn push_scalar_or_placeholder(s: &mut String, v: u32)
    ensures
        final(s)@ == old(s)@ + (if is_unicode_scalar(v) {
            seq![v as char]
        } else {
            seq![placeholder()]
        }),
{
    match char_from_u32(v) {
        Some(c) => {
            push_char(s, c);
            proof {
                assert(final(s)@ =~= old(s)@ + seq![v as char]);
            }
        },
        None => {
            push_char(s, '?');
            proof {
                assert(final(s)@ =~= old(s)@ + seq![placeholder()]);
            }
        },
    }
}

/// Render a whole run of code units under the display mode.
pub fn render_run_text(values: &Vec<u32>, mode: UnicodeDisplay) -> (s: String)
    ensures
        s@ == render_text(values@, mode),
{
    let mut s = String::new();
    let mut i: usize = 0;
    while i < values.len()
        invariant
            i <= values@.len(),
            s@ == render_prefix(values@, i as int, mode),
        decreases values@.len() - i,
    {
        push_render_unit(&mut s, values[i], mode);
        i = i + 1;
    }
    s
}

} // verus!
