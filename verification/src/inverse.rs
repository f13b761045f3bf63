//! Decryption undoes encryption, and encryption undoes decryption.
//!
//! A round moves a window over a sequence of words in which each word is the
//! exclusive or of the word four places back and a function of the three words
//! between. Read backwards, the sequence obeys the same rule, so running the
//! rounds on the reversed state with the round keys in the opposite order walks
//! the sequence back to where it began.
use vstd::prelude::*;
use crate::block::{lemma_load_store, lemma_store_load, load_words, Words};
use crate::rounds::{crypt_words, decrypt, encrypt, round, rounds};
use crate::schedule::expand_key;
use crate::transform::spec_t;

verus! {

/// A round on the reversed result of the same round gives the reversed input.
pub proof fn lemma_round_undone(x: Words, rk: u32)
    ensures
        round(round(x, rk).reversed(), rk) == x.reversed(),
{
    let (a, b, c, d) = (x.w0, x.w1, x.w2, x.w3);
    let f = spec_t(b ^ c ^ d ^ rk);
    assert(d ^ c ^ b ^ rk == b ^ c ^ d ^ rk) by (bit_vector);
    assert((a ^ f) ^ f == a) by (bit_vector);
}

/// After all 32 rounds, `n` rounds on the reversed state with the round keys in
/// the opposite order lead back to the reversed state after `32 - n` rounds.
pub proof fn lemma_rounds_unwound(x: Words, rk: Seq<u32>, n: nat)
    requires
        rk.len() == 32,
        n <= 32,
    ensures
        rounds(rounds(x, rk, 32).reversed(), rk.reverse(), n) == rounds(
            x,
            rk,
            (32 - n) as nat,
        ).reversed(),
    decreases n,
{
    if n > 0 {
        lemma_rounds_unwound(x, rk, (n - 1) as nat);
        let before = rounds(x, rk, (32 - n) as nat);
        lemma_round_undone(before, rk[32 - n]);
    }
}

/// On four words, the cipher under the round keys in the opposite order undoes
/// the cipher.
pub proof fn lemma_crypt_words_undone(x: Words, rk: Seq<u32>)
    requires
        rk.len() == 32,
    ensures
        crypt_words(crypt_words(x, rk), rk.reverse()) == x,
{
    lemma_rounds_unwound(x, rk, 32);
}

/// Decryption undoes encryption: under any 32 round keys, the plaintext of the
/// ciphertext of a 16-byte block is that block.
pub proof fn lemma_decrypt_encrypt(rk: Seq<u32>, block: Seq<u8>)
    requires
        rk.len() == 32,
        block.len() == 16,
    ensures
        decrypt(rk, encrypt(rk, block)) == block,
{
    let x = load_words(block);
    lemma_load_store(crypt_words(x, rk));
    lemma_crypt_words_undone(x, rk);
    lemma_store_load(block);
}

/// Encryption undoes decryption: under any 32 round keys, the ciphertext of the
/// plaintext of a 16-byte block is that block.
pub proof fn lemma_encrypt_decrypt(rk: Seq<u32>, block: Seq<u8>)
    requires
        rk.len() == 32,
        block.len() == 16,
    ensures
        encrypt(rk, decrypt(rk, block)) == block,
{
    let kr = rk.reverse();
    assert(kr.reverse() =~= rk);
    lemma_decrypt_encrypt(kr, block);
}

/// For every key and every block, decrypting the ciphertext of the block under
/// the round keys of the key gives the block back.
pub proof fn lemma_key_decrypt_encrypt(key: [u8; 16], block: [u8; 16])
    ensures
        decrypt(expand_key(key@), encrypt(expand_key(key@), block@)) == block@,
{
    lemma_decrypt_encrypt(expand_key(key@), block@);
}

} // verus!
