//! What a network client does with the byte it receives.
//!
//! A client asks for the latest snapshot by sending [`REQUEST`] and writes
//! each bitmask it gets back as one line of text: a single printable
//! character and a line feed.

use vstd::prelude::*;

verus! {

/// The byte a client sends to ask for the latest snapshot. The server
/// ignores its value.
pub const REQUEST: u8 = 0;

/// The line feed that ends each recorded line.
pub const LINE_FEED: u8 = 0x0A;

/// The printable character that stands for the low six bits of `reading`
/// after a rotation by sixteen places.
pub open spec fn sextext(reading: u8) -> int {
    (reading + 0x10) % 0x40 + 0x30
}

/// Maps a received byte to one printable ASCII character in `0x30..=0x6F`.
///
/// Only the low six bits of `reading + 0x10` count, so bytes that differ by a
/// multiple of 64 give the same character.
pub fn sextext_from_reading(reading: u8) -> (r: u8)
    ensures
        r == sextext(reading),
        0x30 <= r <= 0x6F,
{
    let shifted: u8 = reading.wrapping_add(0x10);
    assert(shifted & 0x3F == shifted % 0x40) by (bit_vector);
    (shifted & 0x3F) + 0x30
}

/// The line that records `reading`: its character, then a line feed.
pub fn record_line(reading: u8) -> (line: [u8; 2])
    ensures
        line@ == seq![sextext(reading) as u8, LINE_FEED],
{
    let line: [u8; 2] = [sextext_from_reading(reading), LINE_FEED];
    assert(line@ =~= seq![sextext(reading) as u8, LINE_FEED]);
    line
}

} // verus!
