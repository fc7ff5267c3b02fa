//! Character-level building blocks for rendering: conversion of a code-unit
//! value to a `char`, and appending one character to a `String`.

use vstd::prelude::*;

verus! {

/// Whether a value is a Unicode scalar value: any code point outside the
/// surrogate range `0xD800..=0xDFFF` and at most `0x10FFFF`. Exactly these
/// values are denoted by a `char`.
pub open spec fn is_unicode_scalar(v: u32) -> bool {
    v < 0xD800 || (0xE000 <= v && v <= 0x10FFFF)
}

/// Relies on `char::from_u32`: it returns `Some` exactly for Unicode scalar
/// values (all code points except surrogates and values above `0x10FFFF`),
/// and the `char` it returns denotes the given value.
#[verifier::external_body]
pub fn char_from_u32(v: u32) -> (r: Option<char>)
    ensures
        r is Some <==> is_unicode_scalar(v),
        r is Some ==> r->0 as u32 == v && r->0 == v as char,
{
    char::from_u32(v)
}

/// Relies on `String::push`: it appends the given `char` to the end of the
/// string and changes nothing else.
#[verifier::external_body]
pub fn push_char(s: &mut String, c: char)
    ensures
        final(s)@ == old(s)@.push(c),
{
    s.push(c);
}

} // verus!
