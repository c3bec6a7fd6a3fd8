//! Register words of the four-input analog-to-digital converter.
//!
//! The converter is configured by a 16-bit word written to its configuration
//! register and answers with a 16-bit two's-complement conversion result. On
//! the bus both words travel with their two bytes exchanged.

use vstd::prelude::*;

verus! {

/// Number of inputs the converter's multiplexer can select.
pub const MAX_CHANNELS: usize = 4;

/// Register that takes the configuration word.
pub const CONFIG_REGISTER: u8 = 1;

/// Register that holds the latest conversion result.
pub const CONVERSION_REGISTER: u8 = 0;

/// Configuration for input 0: single-ended input, +/- 4.096 V full scale,
/// continuous conversion, 860 samples per second, comparator bits zero.
pub const CONFIG_BASE: u16 = 0x42E0;

/// Step of the multiplexer field, which occupies bits 12 to 14.
pub const CONFIG_CHANNEL_STEP: u16 = 0x1000;

/// The word with the two bytes of `word` exchanged.
pub open spec fn swapped(word: u16) -> int {
    (word % 0x100) * 0x100 + word / 0x100
}

/// The value of `word` read as a 16-bit two's-complement number.
pub open spec fn as_signed(word: u16) -> int {
    if word < 0x8000 {
        word as int
    } else {
        word - 0x1_0000
    }
}

/// The 16-bit pattern that stands for `value` in two's complement.
pub open spec fn as_unsigned(value: i16) -> int {
    if value >= 0 {
        value as int
    } else {
        value + 0x1_0000
    }
}

/// The configuration word that selects input `channel` for conversion.
pub fn config_word(channel: usize) -> (word: u16)
    requires
        channel < MAX_CHANNELS,
    ensures
        word == CONFIG_BASE + channel * CONFIG_CHANNEL_STEP,
{
    CONFIG_BASE + channel as u16 * CONFIG_CHANNEL_STEP
}

/// Exchanges the high and the low byte of `word`.
pub fn swap_bytes(word: u16) -> (r: u16)
    ensures
        r == swapped(word),
{
    (word % 0x100) * 0x100 + word / 0x100
}

/// Reads a conversion result as the signed number it encodes.
pub fn signed_reading(word: u16) -> (r: i16)
    ensures
        r == as_signed(word),
{
    if word < 0x8000 {
        word as i16
    } else {
        (word as i32 - 0x1_0000) as i16
    }
}

/// Gives the 16-bit pattern of a signed reading.
pub fn unsigned_word(value: i16) -> (r: u16)
    ensures
        r == as_unsigned(value),
{
    if value >= 0 {
        value as u16
    } else {
        (value as i32 + 0x1_0000) as u16
    }
}

/// Exchanging the bytes twice gives the word back.
pub proof fn swap_is_involution(word: u16)
    ensures
        swapped(swapped(word) as u16) == word,
{
}

/// Reading a pattern as signed and writing it back as a pattern, or the
/// other way round, changes nothing.
pub proof fn signed_unsigned_inverse(word: u16, value: i16)
    ensures
        as_unsigned(as_signed(word) as i16) == word,
        as_signed(as_unsigned(value) as u16) == value,
{
}

} // verus!
