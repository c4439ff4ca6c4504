//! Big-endian framing of 32-bit words.
//!
//! Temperatures and power readings travel as IEEE-754 single-precision
//! numbers. The library never does arithmetic on them: it carries each
//! reading as the 32 bits of its encoding and only splits that word into
//! bytes, most significant first, or joins four bytes back into a word.

use vstd::prelude::*;

verus! {

/// The encoding of the single-precision number 0.0.
pub const ZERO_BITS: u32 = 0;

/// The encoding of the single-precision number 1000.0: sign 0, biased
/// exponent 136, fraction 0x7A0000.
pub const KILOWATT_BITS: u32 = 0x447A_0000;

/// The four bytes of `word`, most significant first.
pub open spec fn spec_be_bytes(word: u32) -> Seq<u8> {
    seq![
        ((word >> 24) & 0xff) as u8,
        ((word >> 16) & 0xff) as u8,
        ((word >> 8) & 0xff) as u8,
        (word & 0xff) as u8,
    ]
}

/// The word whose bytes, most significant first, are `b0 b1 b2 b3`.
pub open spec fn spec_join(b0: u8, b1: u8, b2: u8, b3: u8) -> u32 {
    ((b0 as u32) << 24) | ((b1 as u32) << 16) | ((b2 as u32) << 8) | (b3 as u32)
}

/// The word that the first four bytes of `bytes` spell, most significant first.
pub open spec fn spec_from_be_bytes(bytes: Seq<u8>) -> u32
    recommends
        bytes.len() >= 4,
{
    spec_join(bytes[0], bytes[1], bytes[2], bytes[3])
}

/// Splitting a word and joining the bytes again gives the word back.
pub proof fn lemma_join_of_split(word: u32)
    ensures
        spec_from_be_bytes(spec_be_bytes(word)) == word,
{
    assert(((((word >> 24) & 0xff) as u8) as u32) << 24 | ((((word >> 16) & 0xff) as u8) as u32)
        << 16 | ((((word >> 8) & 0xff) as u8) as u32) << 8 | (((word & 0xff) as u8) as u32)
        == word) by (bit_vector);
}

/// Joining four bytes and splitting the word again gives the bytes back.
pub proof fn lemma_split_of_join(b0: u8, b1: u8, b2: u8, b3: u8)
    ensures
        spec_be_bytes(spec_join(b0, b1, b2, b3)) == seq![b0, b1, b2, b3],
{
    let word = spec_join(b0, b1, b2, b3);
    assert(((word >> 24) & 0xff) as u8 == b0 && ((word >> 16) & 0xff) as u8 == b1 && ((word >> 8)
        & 0xff) as u8 == b2 && (word & 0xff) as u8 == b3) by (bit_vector)
        requires
            word == ((b0 as u32) << 24) | ((b1 as u32) << 16) | ((b2 as u32) << 8) | (b3 as u32),
    ;
}

/// Splits `word` into its four bytes, most significant first.
pub fn be_bytes(word: u32) -> (bytes: [u8; 4])
    ensures
        bytes@ == spec_be_bytes(word),
{
    let bytes = [
        ((word >> 24) & 0xff) as u8,
        ((word >> 16) & 0xff) as u8,
        ((word >> 8) & 0xff) as u8,
        (word & 0xff) as u8,
    ];
    bytes
}

/// Joins four bytes, most significant first, into a word.
pub fn from_be_bytes(bytes: &[u8; 4]) -> (word: u32)
    ensures
        word == spec_from_be_bytes(bytes@),
{
    ((bytes[0] as u32) << 24) | ((bytes[1] as u32) << 16) | ((bytes[2] as u32) << 8) | (
    bytes[3] as u32)
}

} // verus!
