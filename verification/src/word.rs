//! The 16-bit words that window messages pack into their parameters.

use vstd::prelude::*;

verus! {

/// The low 16 bits of a number, as a number from 0 to 65535.
pub open spec fn spec_low_word(value: int) -> int {
    value % 0x10000
}

/// The 16 bits above the low word of a number, as a number from 0 to 65535.
pub open spec fn spec_high_word(value: int) -> int {
    (value / 0x10000) % 0x10000
}

/// The signed number that a 16-bit word holds in two's complement.
pub open spec fn spec_to_signed(word: u16) -> int {
    if word < 0x8000 {
        word as int
    } else {
        word - 0x10000
    }
}

/// Returns the low word of a message parameter.
pub fn low_word(value: isize) -> (word: u16)
    ensures
        word == spec_low_word(value as int),
{
    assert(value as u16 == (value as int) % 0x10000) by (bit_vector);
    #[verifier::truncate]
    (value as u16)
}

/// Returns the high word of a message parameter.
pub fn high_word(value: isize) -> (word: u16)
    ensures
        word == spec_high_word(value as int),
{
    assert((value >> 16) as u16 == ((value as int) / 0x10000) % 0x10000) by (bit_vector);
    #[verifier::truncate]
    ((value >> 16) as u16)
}

/// Returns the low word of an unsigned message parameter.
pub fn low_word_unsigned(value: usize) -> (word: u16)
    ensures
        word == spec_low_word(value as int),
{
    assert(value as u16 == (value as int) % 0x10000) by (bit_vector);
    #[verifier::truncate]
    (value as u16)
}

/// Reads a word as a signed number in two's complement.
pub fn to_signed(word: u16) -> (value: i16)
    ensures
        value == spec_to_signed(word),
{
    assert(word < 0x8000 ==> (word as i16) == word) by (bit_vector);
    assert(word >= 0x8000 ==> (word as i16) == word - 0x10000) by (bit_vector);
    #[verifier::truncate]
    (word as i16)
}

} // verus!
