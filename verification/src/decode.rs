//! The code-unit decoder: converts raw bytes into a sequence of fixed-width
//! code units under the active encoding.
//!
//! The input is read in consecutive non-overlapping windows of the code-unit
//! width; a trailing partial window is silently dropped, never decoded.

use vstd::prelude::*;
use vstd::arithmetic::div_mod::{lemma_fundamental_div_mod, lemma_mod_bound};
use vstd::arithmetic::mul::lemma_mul_inequality;
use crate::config::{code_unit_width, Encoding};

verus! {

/// One decoded code unit: its value and the byte offset of the window it
/// was read from.
#[derive(Debug, Clone, Copy, PartialEq, Eq, Structural)]
pub struct CodeUnit {
    /// The unsigned value assembled from the window's bytes.
    pub value: u32,
    /// The byte offset, in the scanned source, of the first byte of the
    /// window.
    pub offset: usize,
}

/// The value of the code unit whose window starts at byte offset `j`.
/// Multi-byte windows are assembled most-significant byte first for the
/// big-endian encodings and least-significant byte first for the
/// little-endian ones.
pub open spec fn unit_value_at(bytes: Seq<u8>, e: Encoding, j: int) -> u32 {
    match e {
        Encoding::SevenBit => bytes[j] as u32,
        Encoding::EightBit => bytes[j] as u32,
        Encoding::SixteenBitBE => ((bytes[j] as int) * 0x100 + (bytes[j + 1] as int)) as u32,
        Encoding::SixteenBitLE => ((bytes[j + 1] as int) * 0x100 + (bytes[j] as int)) as u32,
        Encoding::ThirtyTwoBitBE => ((bytes[j] as int) * 0x1000000 + (bytes[j + 1] as int) * 0x10000
            + (bytes[j + 2] as int) * 0x100 + (bytes[j + 3] as int)) as u32,
        Encoding::ThirtyTwoBitLE => ((bytes[j + 3] as int) * 0x1000000 + (bytes[j + 2] as int)
            * 0x10000 + (bytes[j + 1] as int) * 0x100 + (bytes[j] as int)) as u32,
    }
}

/// How many whole code units the input holds; the remainder is the dropped
/// trailing fragment.
pub open spec fn num_units(bytes: Seq<u8>, e: Encoding) -> int {
    bytes.len() as int / code_unit_width(e)
}

/// The values of all whole code units of the input, in input order; unit
/// `i` is read from the window starting at byte `i * code_unit_width(e)`.
pub open spec fn unit_values(bytes: Seq<u8>, e: Encoding) -> Seq<u32> {
    Seq::new(num_units(bytes, e) as nat, |i: int| unit_value_at(bytes, e, i * code_unit_width(e)))
}

/// Decode the single code unit whose window starts at byte offset `j`.
pub fn decode_unit_at(bytes: &Vec<u8>, j: usize, e: Encoding) -> (v: u32)
    requires
        j + code_unit_width(e) <= bytes@.len(),
    ensures
        v == unit_value_at(bytes@, e, j as int),
{
    proof {
        vstd::std_specs::vec::axiom_spec_len(bytes);
    }
    match e {
        Encoding::SevenBit => bytes[j] as u32,
        Encoding::EightBit => bytes[j] as u32,
        Encoding::SixteenBitBE => (bytes[j] as u32) * 0x100 + (bytes[j + 1] as u32),
        Encoding::SixteenBitLE => (bytes[j + 1] as u32) * 0x100 + (bytes[j] as u32),
        Encoding::ThirtyTwoBitBE => (bytes[j] as u32) * 0x1000000 + (bytes[j + 1] as u32) * 0x10000
            + (bytes[j + 2] as u32) * 0x100 + (bytes[j + 3] as u32),
        Encoding::ThirtyTwoBitLE => (bytes[j + 3] as u32) * 0x1000000 + (bytes[j + 2] as u32)
            * 0x10000 + (bytes[j + 1] as u32) * 0x100 + (bytes[j] as u32),
    }
}

/// Decode every whole code unit of the input, in input order. A trailing
/// fragment shorter than the code-unit width produces no unit.
pub fn decode_units(bytes: &Vec<u8>, e: Encoding) -> (units: Vec<CodeUnit>)
    ensures
        units@.len() == num_units(bytes@, e),
        forall|k: int|
            0 <= k < units@.len() ==> (#[trigger] units@[k]).offset == k * code_unit_width(e)
                && units@[k].value == unit_values(bytes@, e)[k],
{
    let w = crate::config::unit_width(e);
    let n = bytes.len() / w;
    proof {
        vstd::std_specs::vec::axiom_spec_len(bytes);
        lemma_fundamental_div_mod(bytes@.len() as int, w as int);
        lemma_mod_bound(bytes@.len() as int, w as int);
    }
    let mut units: Vec<CodeUnit> = Vec::new();
    let mut i: usize = 0;
    while i < n
        invariant
            w == code_unit_width(e),
            n == num_units(bytes@, e),
            (n as int) * (w as int) <= bytes@.len(),
            bytes@.len() <= usize::MAX,
            i <= n,
            units@.len() == i,
            forall|k: int|
                0 <= k < i ==> (#[trigger] units@[k]).offset == k * code_unit_width(e)
                    && units@[k].value == unit_values(bytes@, e)[k],
        decreases n - i,
    {
        proof {
            lemma_mul_inequality(i + 1, n as int, w as int);
            assert((i + 1) * (w as int) == i * (w as int) + (w as int)) by (nonlinear_arith);
        }
        let j = i * w;
        let v = decode_unit_at(bytes, j, e);
        units.push(CodeUnit { value: v, offset: j });
        i = i + 1;
    }
    units
}

} // verus!
