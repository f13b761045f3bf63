//! Blocks and keys as four big-endian words.
//!
//! A block and a key are 16 bytes each. The cipher works on them as four 32-bit
//! words, each read from four consecutive bytes with the most significant first.
use vstd::prelude::*;
use crate::transform::{be_byte, be_word, word_from_be, word_to_be};

verus! {

/// Four 32-bit words: the working state of the round function and of the key
/// schedule.
#[derive(Clone, Copy)]
pub struct Words {
    pub w0: u32,
    pub w1: u32,
    pub w2: u32,
    pub w3: u32,
}

impl Words {
    /// The word at position `i`, for `0 <= i < 4`.
    pub open spec fn word(self, i: int) -> u32 {
        if i == 0 {
            self.w0
        } else if i == 1 {
            self.w1
        } else if i == 2 {
            self.w2
        } else {
            self.w3
        }
    }

    /// The same words in the opposite order: the final transform `R` of the cipher.
    pub open spec fn reversed(self) -> Words {
        Words { w0: self.w3, w1: self.w2, w2: self.w1, w3: self.w0 }
    }
}

/// The four words that 16 bytes hold.
pub open spec fn load_words(b: Seq<u8>) -> Words {
    Words {
        w0: be_word(b[0], b[1], b[2], b[3]),
        w1: be_word(b[4], b[5], b[6], b[7]),
        w2: be_word(b[8], b[9], b[10], b[11]),
        w3: be_word(b[12], b[13], b[14], b[15]),
    }
}

/// The 16 bytes that hold four words.
pub open spec fn store_words(w: Words) -> Seq<u8> {
    Seq::new(16, |i: int| be_byte(w.word(i / 4), i % 4))
}

/// A word is the word of its own big-endian bytes.
pub proof fn lemma_word_of_bytes(w: u32)
    ensures
        be_word(be_byte(w, 0), be_byte(w, 1), be_byte(w, 2), be_byte(w, 3)) == w,
{
    assert(((w >> 24) as u8 as u32) << 24 | ((w >> 16) as u8 as u32) << 16 | ((w >> 8) as u8 as u32)
        << 8 | (w as u8 as u32) == w) by (bit_vector);
}

/// The big-endian bytes of a word assembled from four bytes are those bytes.
pub proof fn lemma_bytes_of_word(b0: u8, b1: u8, b2: u8, b3: u8)
    ensures
        be_byte(be_word(b0, b1, b2, b3), 0) == b0,
        be_byte(be_word(b0, b1, b2, b3), 1) == b1,
        be_byte(be_word(b0, b1, b2, b3), 2) == b2,
        be_byte(be_word(b0, b1, b2, b3), 3) == b3,
{
    let w = be_word(b0, b1, b2, b3);
    assert((w >> 24) as u8 == b0 && (w >> 16) as u8 == b1 && (w >> 8) as u8 == b2 && w as u8
        == b3) by (bit_vector)
        requires
            w == (b0 as u32) << 24 | (b1 as u32) << 16 | (b2 as u32) << 8 | (b3 as u32),
    ;
}

/// Storing four words and loading them again gives the same words.
pub proof fn lemma_load_store(w: Words)
    ensures
        load_words(store_words(w)) == w,
        store_words(w).len() == 16,
{
    lemma_word_of_bytes(w.w0);
    lemma_word_of_bytes(w.w1);
    lemma_word_of_bytes(w.w2);
    lemma_word_of_bytes(w.w3);
}

/// Loading 16 bytes and storing the words again gives the same bytes.
pub proof fn lemma_store_load(b: Seq<u8>)
    requires
        b.len() == 16,
    ensures
        store_words(load_words(b)) == b,
{
    lemma_bytes_of_word(b[0], b[1], b[2], b[3]);
    lemma_bytes_of_word(b[4], b[5], b[6], b[7]);
    lemma_bytes_of_word(b[8], b[9], b[10], b[11]);
    lemma_bytes_of_word(b[12], b[13], b[14], b[15]);
    assert(store_words(load_words(b)) =~= b);
}

/// Reads a 16-byte array as four words.
pub fn load_block(b: &[u8; 16]) -> (w: Words)
    ensures
        w == load_words(b@),
{
    Words {
        w0: word_from_be(b[0], b[1], b[2], b[3]),
        w1: word_from_be(b[4], b[5], b[6], b[7]),
        w2: word_from_be(b[8], b[9], b[10], b[11]),
        w3: word_from_be(b[12], b[13], b[14], b[15]),
    }
}

/// Writes four words as a 16-byte array.
pub fn store_block(w: Words) -> (b: [u8; 16])
    ensures
        b@ == store_words(w),
{
    let b0 = word_to_be(w.w0);
    let b1 = word_to_be(w.w1);
    let b2 = word_to_be(w.w2);
    let b3 = word_to_be(w.w3);
    let b = [
        b0[0], b0[1], b0[2], b0[3],
        b1[0], b1[1], b1[2], b1[3],
        b2[0], b2[1], b2[2], b2[3],
        b3[0], b3[1], b3[2], b3[3],
    ];
    assert(b@ =~= store_words(w));
    b
}

} // verus!
