//! Two adjacent bytes of a packet, read together as one big-endian 16-bit word.

use vstd::prelude::*;

verus! {

/// The word that a most significant byte and a least significant byte make.
pub open spec fn word_of(msb: u8, lsb: u8) -> int {
    msb as int * 256 + lsb as int
}

/// A pair of bytes: the high (most significant) byte first, then the low byte.
#[derive(Clone, Copy, Debug, PartialEq, Eq, Structural)]
pub struct AdjacentBytes {
    high: u8,
    low: u8,
}

impl AdjacentBytes {
    pub closed spec fn spec_msb(&self) -> u8 {
        self.high
    }

    pub closed spec fn spec_lsb(&self) -> u8 {
        self.low
    }

    /// The pair of bytes that a word splits into.
    pub closed spec fn spec_from_word(word: u16) -> Self {
        AdjacentBytes { high: (word >> 8u16) as u8, low: (word & 0xffu16) as u8 }
    }

    /// The word that these two bytes stand for.
    pub open spec fn spec_word(&self) -> int {
        word_of(self.spec_msb(), self.spec_lsb())
    }

    /// Pairs `byte1` (the high byte) with `byte2` (the low byte).
    pub fn make(byte1: u8, byte2: u8) -> (r: Self)
        ensures
            r.spec_msb() == byte1,
            r.spec_lsb() == byte2,
    {
        AdjacentBytes { high: byte1, low: byte2 }
    }

    /// The most significant byte.
    pub fn msb(&self) -> (r: u8)
        ensures
            r == self.spec_msb(),
    {
        self.high
    }

    /// The least significant byte.
    pub fn lsb(&self) -> (r: u8)
        ensures
            r == self.spec_lsb(),
    {
        self.low
    }

    /// Splits a word into its two bytes, high byte first.
    pub fn from_word(word: u16) -> (r: Self)
        ensures
            r == Self::spec_from_word(word),
    {
        AdjacentBytes { high: (word >> 8u16) as u8, low: (word & 0xffu16) as u8 }
    }

    /// The word that the two bytes make, high byte first.
    pub fn to_word(&self) -> (r: u16)
        ensures
            r as int == self.spec_word(),
    {
        let high = self.high;
        let low = self.low;
        assert((((high as u16) << 8u16) | (low as u16)) as int == high as int * 256 + low as int)
            by (bit_vector);
        ((high as u16) << 8u16) | (low as u16)
    }
}

impl From<u16> for AdjacentBytes {
    /// Splits a word into its two bytes, high byte first.
    fn from(word: u16) -> (r: Self) {
        AdjacentBytes::from_word(word)
    }
}

impl vstd::std_specs::convert::FromSpecImpl<u16> for AdjacentBytes {
    open spec fn obeys_from_spec() -> bool {
        true
    }

    open spec fn from_spec(word: u16) -> AdjacentBytes {
        AdjacentBytes::spec_from_word(word)
    }
}

impl From<AdjacentBytes> for u16 {
    /// The word that the two bytes make, high byte first.
    fn from(bytes: AdjacentBytes) -> (r: Self) {
        bytes.to_word()
    }
}

impl vstd::std_specs::convert::FromSpecImpl<AdjacentBytes> for u16 {
    open spec fn obeys_from_spec() -> bool {
        true
    }

    open spec fn from_spec(bytes: AdjacentBytes) -> u16 {
        bytes.spec_word() as u16
    }
}

/// Splitting a word into two bytes and joining them again gives the word back.
pub proof fn lemma_word_round_trip(word: u16)
    ensures
        AdjacentBytes::spec_from_word(word).spec_word() == word as int,
{
    reveal(AdjacentBytes::spec_from_word);
    reveal(AdjacentBytes::spec_msb);
    reveal(AdjacentBytes::spec_lsb);
    assert(((word >> 8u16) as u8) as int * 256 + ((word & 0xffu16) as u8) as int == word as int)
        by (bit_vector);
}

/// Joining two bytes into a word and splitting it again gives the same two bytes.
pub proof fn lemma_bytes_round_trip(bytes: AdjacentBytes)
    ensures
        AdjacentBytes::spec_from_word(bytes.spec_word() as u16) == bytes,
{
    let high = bytes.spec_msb();
    let low = bytes.spec_lsb();
    assert((((high as int * 256 + low as int) as u16) >> 8u16) as u8 == high
        && (((high as int * 256 + low as int) as u16) & 0xffu16) as u8 == low) by (bit_vector);
}

} // verus!
