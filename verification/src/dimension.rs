//! The text of a width or height field of the form.

use crate::symbol::is_digit;
use vstd::prelude::*;
use vstd::utf8::encode_utf8;

verus! {

/// What a width or height field holds.
#[derive(Clone, Copy, Debug, PartialEq, Eq, Structural)]
pub enum DimensionField {
    /// Nothing was typed.
    Absent,
    /// A number of pixels.
    Pixels(u32),
    /// Something that is no number of pixels.
    Malformed,
}

/// The number that the decimal digits `digits` write.
pub open spec fn decimal_value(digits: Seq<u8>) -> nat
    decreases digits.len(),
{
    if digits.len() == 0 {
        0
    } else {
        decimal_value(digits.drop_last()) * 10 + (digits.last() - 0x30) as nat
    }
}

/// Is `digits` one or more ASCII decimal digits?
pub open spec fn is_decimal(digits: Seq<u8>) -> bool {
    digits.len() > 0 && forall|i: int| 0 <= i < digits.len() ==> is_digit(#[trigger] digits[i])
}

/// `text` without its leading `+`, if it has one.
pub open spec fn without_sign(text: Seq<u8>) -> Seq<u8> {
    if text.len() > 0 && text[0] == 0x2b {
        text.skip(1)
    } else {
        text
    }
}

/// What the bytes of a field mean: nothing where the field is empty; a
/// number of pixels where they are decimal digits, after an optional `+`,
/// that write a number of at most `u32::MAX`; malformed otherwise.
pub open spec fn dimension_field(text: Seq<u8>) -> DimensionField {
    if text.len() == 0 {
        DimensionField::Absent
    } else if is_decimal(without_sign(text)) && decimal_value(without_sign(text)) <= u32::MAX {
        DimensionField::Pixels(decimal_value(without_sign(text)) as u32)
    } else {
        DimensionField::Malformed
    }
}

/// A number is at least any number written by a prefix of its digits.
pub proof fn lemma_decimal_value_grows(digits: Seq<u8>, count: int)
    requires
        0 <= count <= digits.len(),
        forall|i: int| 0 <= i < digits.len() ==> is_digit(#[trigger] digits[i]),
    ensures
        decimal_value(digits.take(count)) <= decimal_value(digits),
    decreases digits.len() - count,
{
    if count == digits.len() {
        assert(digits.take(count) =~= digits);
    } else {
        lemma_decimal_value_grows(digits, count + 1);
        assert(digits.take(count + 1).drop_last() =~= digits.take(count));
    }
}

/// Reads the text of a width or height field.
pub fn parse_dimension(text: &str) -> (field: DimensionField)
    ensures
        field == dimension_field(encode_utf8(text@)),
{
    let bytes: &[u8] = text.as_bytes();
    let n: usize = bytes.len();
    if n == 0 {
        return DimensionField::Absent;
    }
    let start: usize = if bytes[0] == 0x2b {
        1
    } else {
        0
    };
    let ghost digits = without_sign(bytes@);
    assert(digits =~= bytes@.skip(start as int));
    let mut value: u64 = 0;
    let mut i: usize = start;
    assert(digits.take(0) =~= Seq::<u8>::empty());
    while i < n
        invariant
            bytes@ == encode_utf8(text@),
            0 < n == bytes@.len(),
            start <= i <= n,
            digits == without_sign(bytes@),
            digits == bytes@.skip(start as int),
            forall|j: int| 0 <= j < i - start ==> is_digit(#[trigger] digits[j]),
            value == decimal_value(digits.take(i - start)),
            value <= u32::MAX,
        decreases n - i,
    {
        let byte: u8 = bytes[i];
        assert(byte == digits[i - start]);
        if byte < 0x30 || byte > 0x39 {
            return DimensionField::Malformed;
        }
        assert(digits.take(i - start + 1).drop_last() =~= digits.take(i - start));
        value = value * 10 + (byte - 0x30) as u64;
        if value > u32::MAX as u64 {
            proof {
                if is_decimal(digits) {
                    lemma_decimal_value_grows(digits, i - start + 1);
                }
            }
            return DimensionField::Malformed;
        }
        i = i + 1;
    }
    assert(digits.take(n - start) =~= digits);
    if i == start {
        return DimensionField::Malformed;
    }
    DimensionField::Pixels(value as u32)
}

} // verus!
