use byteorder::{ByteOrder, LittleEndian};
use vstd::prelude::*;

verus! {

/// The 16-bit word whose little-endian encoding is `low` followed by `high`.
pub open spec fn word_of(low: u8, high: u8) -> u16 {
    (low as int + 256 * (high as int)) as u16
}

/// The first byte of the little-endian encoding of `word`.
pub open spec fn low_byte(word: u16) -> u8 {
    (word as int % 256) as u8
}

/// The second byte of the little-endian encoding of `word`.
pub open spec fn high_byte(word: u16) -> u8 {
    (word as int / 256) as u8
}

/// Splitting a word into its two bytes and joining them again gives the word back.
pub proof fn lemma_word_of_its_bytes(word: u16)
    ensures
        word_of(low_byte(word), high_byte(word)) == word,
{
}

/// Joining two bytes into a word and splitting it again gives the bytes back.
pub proof fn lemma_bytes_of_word(low: u8, high: u8)
    ensures
        low_byte(word_of(low, high)) == low,
        high_byte(word_of(low, high)) == high,
{
}

/// Calls `byteorder::LittleEndian::read_u16`, which reads the first two bytes of `buf` as a
/// little-endian word and panics on a shorter buffer.
#[verifier::external_body]
pub(crate) fn read_u16(buf: &[u8]) -> (word: u16)
    requires
        buf@.len() >= 2,
    ensures
        word == word_of(buf@[0], buf@[1]),
{
    LittleEndian::read_u16(buf)
}

/// Calls `byteorder::LittleEndian::write_u16` on a fresh two-byte buffer, which it fills with
/// the little-endian encoding of `word`.
#[verifier::external_body]
pub(crate) fn write_u16(word: u16) -> (bytes: [u8; 2])
    ensures
        bytes@ == seq![low_byte(word), high_byte(word)],
{
    let mut buf = [0u8; 2];
    LittleEndian::write_u16(&mut buf, word);
    buf
}

} // verus!
