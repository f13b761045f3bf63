//! The cipher handle: a key expanded once, then used for any number of blocks.
use vstd::prelude::*;
use cipher::zeroize::Zeroize;
use crate::inverse::{lemma_decrypt_encrypt, lemma_encrypt_decrypt};
use crate::rounds::{decrypt, encrypt, sm4_decrypt, sm4_encrypt};
use crate::schedule::{expand_key, sm4_init_key};

verus! {

/// 32 round keys that are all zero: what a handle holds once it has been wiped.
pub open spec fn zero_keys() -> Seq<u32> {
    Seq::new(32, |i: int| 0u32)
}

/// Overwrites the round keys with zeros by `zeroize` of the `zeroize` crate, as
/// the `cipher` crate hands it on. For an array, `zeroize` writes the default
/// value of the element type, zero for `u32`, to every element with a volatile
/// write: the contract states that every word is zero afterwards.
#[verifier::external_body]
fn zeroize_words(rk: &mut [u32; 32])
    ensures
        final(rk)@ == zero_keys(),
{
    rk.zeroize();
}

/// SM4 block cipher.
pub struct Sm4 {
    rk: [u32; 32],
}

impl View for Sm4 {
    type V = Seq<u32>;

    /// The 32 round keys, in the order in which encryption uses them.
    closed spec fn view(&self) -> Seq<u32> {
        self.rk@
    }
}

impl Clone for Sm4 {
    fn clone(&self) -> (c: Self)
        ensures
            c@ == self@,
    {
        Sm4 { rk: self.rk }
    }
}

impl Sm4 {
    /// Makes a handle for `key`.
    pub fn new(key: &[u8; 16]) -> (c: Sm4)
        ensures
            c@ == expand_key(key@),
    {
        Sm4 { rk: sm4_init_key(key) }
    }

    /// Encrypts `block` in place.
    pub fn encrypt_block(&self, block: &mut [u8; 16])
        ensures
            final(block)@ == encrypt(self@, old(block)@),
    {
        sm4_encrypt(block, &self.rk);
    }

    /// Decrypts `block` in place.
    pub fn decrypt_block(&self, block: &mut [u8; 16])
        ensures
            final(block)@ == decrypt(self@, old(block)@),
    {
        sm4_decrypt(block, &self.rk);
    }

    /// Encrypts each block of `blocks` in place, each on its own: the result is
    /// that of `encrypt_block` on every block.
    pub fn encrypt_blocks(&self, blocks: &mut [[u8; 16]])
        ensures
            final(blocks)@.len() == old(blocks)@.len(),
            forall|i: int|
                0 <= i < old(blocks)@.len() ==> (#[trigger] final(blocks)@[i])@ == encrypt(
                    self@,
                    old(blocks)@[i]@,
                ),
    {
        let n = blocks.len();
        let mut i: usize = 0;
        while i < n
            invariant
                i <= n,
                n == blocks@.len(),
                blocks@.len() == old(blocks)@.len(),
                forall|j: int|
                    0 <= j < i ==> (#[trigger] blocks@[j])@ == encrypt(self@, old(blocks)@[j]@),
                forall|j: int| i <= j < n ==> blocks@[j] == old(blocks)@[j],
            decreases n - i,
        {
            sm4_encrypt(&mut blocks[i], &self.rk);
            i += 1;
        }
    }

    /// Decrypts each block of `blocks` in place, each on its own: the result is
    /// that of `decrypt_block` on every block.
    pub fn decrypt_blocks(&self, blocks: &mut [[u8; 16]])
        ensures
            final(blocks)@.len() == old(blocks)@.len(),
            forall|i: int|
                0 <= i < old(blocks)@.len() ==> (#[trigger] final(blocks)@[i])@ == decrypt(
                    self@,
                    old(blocks)@[i]@,
                ),
    {
        let n = blocks.len();
        let mut i: usize = 0;
        while i < n
            invariant
                i <= n,
                n == blocks@.len(),
                blocks@.len() == old(blocks)@.len(),
                forall|j: int|
                    0 <= j < i ==> (#[trigger] blocks@[j])@ == decrypt(self@, old(blocks)@[j]@),
                forall|j: int| i <= j < n ==> blocks@[j] == old(blocks)@[j],
            decreases n - i,
        {
            sm4_decrypt(&mut blocks[i], &self.rk);
            i += 1;
        }
    }

    /// Overwrites the round keys with zeros: the teardown of a handle whose key
    /// must not stay in memory. The handle can still be used afterwards, and then
    /// works under 32 zero round keys.
    pub fn zeroize(&mut self)
        ensures
            final(self)@ == zero_keys(),
    {
        zeroize_words(&mut self.rk);
    }

    /// The name of the algorithm.
    pub fn alg_name() -> (s: &'static str)
        ensures
            s@ == "Sm4"@,
    {
        "Sm4"
    }

    /// What a handle shows of itself when printed for debugging: the name of the
    /// algorithm and a placeholder, never the round keys.
    pub fn debug_string(&self) -> (s: &'static str)
        ensures
            s@ == "Sm4 { ... }"@,
    {
        "Sm4 { ... }"
    }

    /// Under one handle, decrypting the ciphertext of a block gives the block
    /// back.
    pub proof fn lemma_decrypt_undoes_encrypt(self, block: [u8; 16])
        ensures
            decrypt(self@, encrypt(self@, block@)) == block@,
    {
        lemma_decrypt_encrypt(self@, block@);
    }

    /// Under one handle, encrypting the plaintext of a block gives the block
    /// back.
    pub proof fn lemma_encrypt_undoes_decrypt(self, block: [u8; 16])
        ensures
            encrypt(self@, decrypt(self@, block@)) == block@,
    {
        lemma_encrypt_decrypt(self@, block@);
    }
}

/// The ciphertext depends on the key and the block alone: two handles made for
/// the same key turn the same block into the same ciphertext, and the same
/// ciphertext into the same block.
pub proof fn lemma_same_key_same_result(a: Sm4, b: Sm4, key: [u8; 16], block: [u8; 16])
    requires
        a@ == expand_key(key@),
        b@ == expand_key(key@),
    ensures
        encrypt(a@, block@) == encrypt(b@, block@),
        decrypt(a@, block@) == decrypt(b@, block@),
{
}

} // verus!
