//! Push constants as bytes.
//!
//! Constants are words, and a device is handed the memory that holds them. Which
//! byte of a word comes first there is up to the machine.
use vstd::prelude::*;

verus! {

/// Which end of a word comes first in memory.
#[derive(Clone, Copy, Debug, PartialEq, Eq)]
pub enum ByteOrder {
    /// The least significant byte.
    LittleEndian,
    /// The most significant byte.
    BigEndian,
}

/// The bytes of a word, from the least significant on.
pub open spec fn digits(word: u32) -> Seq<u8> {
    seq![
        (word % 256) as u8,
        (word / 256 % 256) as u8,
        (word / 65536 % 256) as u8,
        (word / 16777216) as u8,
    ]
}

/// The four bytes of a word as they lie in memory.
pub open spec fn word_bytes(word: u32, order: ByteOrder) -> Seq<u8> {
    match order {
        ByteOrder::LittleEndian => digits(word),
        ByteOrder::BigEndian => digits(word).reverse(),
    }
}

/// The bytes of words as they lie in memory: those of the first word, then those
/// of the second, and so on.
pub open spec fn bytes_of(words: Seq<u32>, order: ByteOrder) -> Seq<u8> {
    Seq::new(4 * words.len(), |i: int| word_bytes(words[i / 4], order)[i % 4])
}

/// Gives the bytes of words as they lie in memory.
pub fn cast_words(words: &[u32], order: ByteOrder) -> (bytes: Vec<u8>)
    ensures
        bytes@ == bytes_of(words@, order),
{
    let mut bytes: Vec<u8> = Vec::new();
    let mut i: usize = 0;
    while i < words.len()
        invariant
            i <= words@.len(),
            bytes@ == bytes_of(words@.take(i as int), order),
        decreases words@.len() - i,
    {
        let word: u32 = words[i];
        let b0: u8 = (word % 256) as u8;
        let b1: u8 = (word / 256 % 256) as u8;
        let b2: u8 = (word / 65536 % 256) as u8;
        let b3: u8 = (word / 16777216) as u8;
        match order {
            ByteOrder::LittleEndian => {
                bytes.push(b0);
                bytes.push(b1);
                bytes.push(b2);
                bytes.push(b3);
            },
            ByteOrder::BigEndian => {
                bytes.push(b3);
                bytes.push(b2);
                bytes.push(b1);
                bytes.push(b0);
            },
        }
        assert(bytes@ =~= bytes_of(words@.take(i + 1), order));
        i = i + 1;
    }
    assert(words@.take(i as int) =~= words@);
    bytes
}

} // verus!
