//! UTF-16 code units: the surrogate ranges, and the step between code units and characters.

use vstd::prelude::*;

verus! {

/// Whether `value` is a Unicode scalar value, that is a code point that a `char` can hold.
pub open spec fn is_scalar_value(value: int) -> bool {
    0 <= value <= 0xD7FF || 0xE000 <= value <= 0x10FFFF
}

/// `char::from_u32` of std: the character with the given scalar value. By its documentation
/// it returns `None` exactly when the number is no scalar value (a surrogate, or a number
/// above `0x10FFFF`).
pub assume_specification[ char::from_u32 ](i: u32) -> (c: Option<char>)
    ensures
        is_scalar_value(i as int) ==> c == Some(i as char),
        !is_scalar_value(i as int) ==> c is None,
;

pub open spec fn spec_is_low_surrogate(code: u16) -> bool {
    0xDC00 <= code <= 0xDFFF
}

pub open spec fn spec_is_high_surrogate(code: u16) -> bool {
    0xD800 <= code <= 0xDBFF
}

/// Returns whether the provided code unit is a low surrogate.
#[verifier::when_used_as_spec(spec_is_low_surrogate)]
pub fn is_low_surrogate(code: u16) -> (yes: bool)
    ensures
        yes == spec_is_low_surrogate(code),
{
    0xDC00 <= code && code <= 0xDFFF
}

/// Returns whether the provided code unit is a high surrogate.
#[verifier::when_used_as_spec(spec_is_high_surrogate)]
pub fn is_high_surrogate(code: u16) -> (yes: bool)
    ensures
        yes == spec_is_high_surrogate(code),
{
    0xD800 <= code && code <= 0xDBFF
}

/// The code point that a low and a high surrogate stand for together: ten bits from each,
/// the high surrogate's above the low one's, over the base `0x10000`.
pub open spec fn surrogate_pair_value(low: u16, high: u16) -> int {
    0x10000 + (high - 0xD800) * 0x400 + (low - 0xDC00)
}

/// What [`decode_utf16`] returns.
pub open spec fn spec_decode_utf16(low: u16, high: u16) -> Option<char> {
    if is_low_surrogate(low) && is_high_surrogate(high) {
        Some(surrogate_pair_value(low, high) as char)
    } else {
        None
    }
}

/// Every surrogate pair stands for a code point of the supplementary planes, which is a
/// scalar value.
pub proof fn lemma_surrogate_pair_value_is_scalar(low: u16, high: u16)
    requires
        is_low_surrogate(low),
        is_high_surrogate(high),
    ensures
        0x10000 <= surrogate_pair_value(low, high) <= 0x10FFFF,
        is_scalar_value(surrogate_pair_value(low, high)),
        spec_decode_utf16(low, high).unwrap() as int == surrogate_pair_value(low, high),
{
}

/// Decodes the provided low and high surrogates into the character they stand for.
///
/// The result is `None` when `low` is no low surrogate or `high` no high surrogate.
pub fn decode_utf16(low: u16, high: u16) -> (c: Option<char>)
    ensures
        c == spec_decode_utf16(low, high),
{
    if is_low_surrogate(low) && is_high_surrogate(high) {
        let upper: u32 = (high as u32 - 0xD800) * 0x400;
        let lower: u32 = low as u32 - 0xDC00;
        let value: u32 = 0x10000 + upper + lower;
        char::from_u32(value)
    } else {
        None
    }
}

/// The UTF-16 code units of a character: the character itself where it fits in one code
/// unit, else a high and then a low surrogate, with ten bits each of what the character has
/// above `0x10000`.
pub open spec fn encode_char(c: char) -> Seq<u16> {
    if (c as int) < 0x10000 {
        seq![c as u16]
    } else {
        seq![
            (0xD800 + (c as int - 0x10000) / 0x400) as u16,
            (0xDC00 + (c as int - 0x10000) % 0x400) as u16,
        ]
    }
}

/// The UTF-16 code units of a text: those of its characters, one character after the other.
pub open spec fn encode_utf16(text: Seq<char>) -> Seq<u16>
    decreases text.len(),
{
    if text.len() == 0 {
        Seq::empty()
    } else {
        encode_utf16(text.drop_last()) + encode_char(text.last())
    }
}

/// Appends the UTF-16 code units of a character to `units`.
pub fn push_utf16(c: char, units: &mut Vec<u16>)
    ensures
        final(units)@ == old(units)@ + encode_char(c),
{
    let value: u32 = c as u32;
    if value < 0x10000 {
        units.push(value as u16);
        assert(units@ =~= old(units)@ + encode_char(c));
    } else {
        let rest: u32 = value - 0x10000;
        units.push((0xD800 + rest / 0x400) as u16);
        units.push((0xDC00 + rest % 0x400) as u16);
        assert(units@ =~= old(units)@ + encode_char(c));
    }
}

/// Creates a null-terminated UTF-16 string from the given Rust string.
pub fn make_utf16(s: &str) -> (units: Vec<u16>)
    ensures
        units@ == encode_utf16(s@).push(0),
{
    let mut units: Vec<u16> = Vec::new();
    for c in iter: s.chars()
        invariant
            iter.seq() == s@,
            units@ == encode_utf16(s@.take(iter.index() as int)),
    {
        assert(s@.take(iter.index() + 1).drop_last() =~= s@.take(iter.index() as int));
        push_utf16(c, &mut units);
    }
    assert(s@.take(s@.len() as int) =~= s@);
    units.push(0);
    units
}

/// The two code units of a character above `0x10000` are a high and a low surrogate, and
/// decoding them gives the character back.
pub proof fn lemma_decode_encode(c: char)
    requires
        c as int >= 0x10000,
    ensures
        encode_char(c).len() == 2,
        is_high_surrogate(encode_char(c)[0]),
        is_low_surrogate(encode_char(c)[1]),
        spec_decode_utf16(encode_char(c)[1], encode_char(c)[0]) == Some(c),
{
}

} // verus!
