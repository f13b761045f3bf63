//! The round function: encryption and decryption of one block under 32 round
//! keys.
use vstd::prelude::*;
use crate::block::{load_block, load_words, store_block, store_words, Words};
use crate::transform::{spec_t, t};

verus! {

/// One round with round key `rk`: the window of four words moves on by one, and
/// the word that enters it is the word that leaves it mixed with `T` of the
/// other three and the round key.
pub open spec fn round(x: Words, rk: u32) -> Words {
    Words { w0: x.w1, w1: x.w2, w2: x.w3, w3: x.w0 ^ spec_t(x.w1 ^ x.w2 ^ x.w3 ^ rk) }
}

/// The state after the first `n` rounds on `x`, round `i` taking `rk[i]`.
pub open spec fn rounds(x: Words, rk: Seq<u32>, n: nat) -> Words
    decreases n,
{
    if n == 0 {
        x
    } else {
        round(rounds(x, rk, (n - 1) as nat), rk[n - 1])
    }
}

/// The cipher on four words: 32 rounds, then the words in the opposite order.
pub open spec fn crypt_words(x: Words, rk: Seq<u32>) -> Words {
    rounds(x, rk, 32).reversed()
}

/// The ciphertext of the 16-byte block `block` under the 32 round keys `rk`.
pub open spec fn encrypt(rk: Seq<u32>, block: Seq<u8>) -> Seq<u8> {
    store_words(crypt_words(load_words(block), rk))
}

/// The plaintext of the 16-byte block `block` under the 32 round keys `rk`:
/// the same transform with the round keys taken from the last to the first.
pub open spec fn decrypt(rk: Seq<u32>, block: Seq<u8>) -> Seq<u8> {
    encrypt(rk.reverse(), block)
}

/// Encrypts `block` in place under the round keys `rk`.
pub fn sm4_encrypt(block: &mut [u8; 16], rk: &[u32; 32])
    ensures
        final(block)@ == encrypt(rk@, old(block)@),
{
    let ghost x0 = load_words(block@);
    let mut x = load_block(block);
    let mut i: usize = 0;
    while i < 8
        invariant
            i <= 8,
            x == rounds(x0, rk@, (4 * i) as nat),
        decreases 8 - i,
    {
        // Four rounds in place: each word is overwritten by the word that enters
        // the window four rounds later, so after four rounds the window is back
        // in the order w0, w1, w2, w3.
        x.w0 = x.w0 ^ t(x.w1 ^ x.w2 ^ x.w3 ^ rk[i * 4]);
        x.w1 = x.w1 ^ t(x.w2 ^ x.w3 ^ x.w0 ^ rk[i * 4 + 1]);
        x.w2 = x.w2 ^ t(x.w3 ^ x.w0 ^ x.w1 ^ rk[i * 4 + 2]);
        x.w3 = x.w3 ^ t(x.w0 ^ x.w1 ^ x.w2 ^ rk[i * 4 + 3]);
        proof {
            reveal_with_fuel(rounds, 4);
        }
        i += 1;
    }
    // The final transform: the words leave in the opposite order.
    *block = store_block(Words { w0: x.w3, w1: x.w2, w2: x.w1, w3: x.w0 });
}

/// Decrypts `block` in place under the round keys `rk`.
pub fn sm4_decrypt(block: &mut [u8; 16], rk: &[u32; 32])
    ensures
        final(block)@ == decrypt(rk@, old(block)@),
{
    let ghost x0 = load_words(block@);
    let ghost kr = rk@.reverse();
    let mut x = load_block(block);
    let mut i: usize = 0;
    while i < 8
        invariant
            i <= 8,
            kr == rk@.reverse(),
            x == rounds(x0, kr, (4 * i) as nat),
        decreases 8 - i,
    {
        // As in encryption, with round `j` taking round key `31 - j`.
        x.w0 = x.w0 ^ t(x.w1 ^ x.w2 ^ x.w3 ^ rk[31 - i * 4]);
        x.w1 = x.w1 ^ t(x.w2 ^ x.w3 ^ x.w0 ^ rk[31 - (i * 4 + 1)]);
        x.w2 = x.w2 ^ t(x.w3 ^ x.w0 ^ x.w1 ^ rk[31 - (i * 4 + 2)]);
        x.w3 = x.w3 ^ t(x.w0 ^ x.w1 ^ x.w2 ^ rk[31 - (i * 4 + 3)]);
        proof {
            reveal_with_fuel(rounds, 4);
        }
        i += 1;
    }
    *block = store_block(Words { w0: x.w3, w1: x.w2, w2: x.w1, w3: x.w0 });
}

} // verus!
