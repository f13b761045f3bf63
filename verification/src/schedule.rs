//! The key schedule: from a 128-bit key to the 32 round keys.
use vstd::prelude::*;
use crate::block::{load_block, load_words, Words};
use crate::consts::{CK, FK};
use crate::transform::{spec_t_prime, t_prime};

verus! {

/// The key words before the first round: each word of the key mixed with its
/// system parameter.
pub open spec fn key_init(mk: Words) -> Words {
    Words { w0: mk.w0 ^ FK@[0], w1: mk.w1 ^ FK@[1], w2: mk.w2 ^ FK@[2], w3: mk.w3 ^ FK@[3] }
}

/// One round of the key schedule with round constant `ck`: the window of four
/// key words moves on by one, and the word that enters it is the word that
/// leaves it mixed with `T'` of the other three and the constant.
pub open spec fn key_round(k: Words, ck: u32) -> Words {
    Words { w0: k.w1, w1: k.w2, w2: k.w3, w3: k.w0 ^ spec_t_prime(k.w1 ^ k.w2 ^ k.w3 ^ ck) }
}

/// The window of key words after `n` rounds of the key schedule on the key
/// words `mk`.
pub open spec fn key_state(mk: Words, n: nat) -> Words
    decreases n,
{
    if n == 0 {
        key_init(mk)
    } else {
        key_round(key_state(mk, (n - 1) as nat), CK@[n - 1])
    }
}

/// Round key `i` of the 16-byte key `key`: the word that round `i` of the key
/// schedule brings in.
pub open spec fn round_key(key: Seq<u8>, i: int) -> u32 {
    key_state(load_words(key), (i + 1) as nat).w3
}

/// The 32 round keys of the 16-byte key `key`, in the order in which encryption
/// uses them.
pub open spec fn expand_key(key: Seq<u8>) -> Seq<u32> {
    Seq::new(32, |i: int| round_key(key, i))
}

/// Expands a key into its 32 round keys.
pub fn sm4_init_key(key: &[u8; 16]) -> (rk: [u32; 32])
    ensures
        rk@ == expand_key(key@),
{
    let mk = load_block(key);
    let mut rk = [0u32; 32];
    let mut k = Words { w0: mk.w0 ^ FK[0], w1: mk.w1 ^ FK[1], w2: mk.w2 ^ FK[2], w3: mk.w3 ^ FK[3] };
    let mut i: usize = 0;
    while i < 8
        invariant
            i <= 8,
            mk == load_words(key@),
            k == key_state(mk, (4 * i) as nat),
            forall|j: int| 0 <= j < 4 * i ==> rk[j] == round_key(key@, j),
        decreases 8 - i,
    {
        // Four rounds in place: each key word is overwritten by the word that
        // enters the window four rounds later, which is the round key of that
        // round.
        k.w0 = k.w0 ^ t_prime(k.w1 ^ k.w2 ^ k.w3 ^ CK[i * 4]);
        k.w1 = k.w1 ^ t_prime(k.w2 ^ k.w3 ^ k.w0 ^ CK[i * 4 + 1]);
        k.w2 = k.w2 ^ t_prime(k.w3 ^ k.w0 ^ k.w1 ^ CK[i * 4 + 2]);
        k.w3 = k.w3 ^ t_prime(k.w0 ^ k.w1 ^ k.w2 ^ CK[i * 4 + 3]);

        rk[i * 4] = k.w0;
        rk[i * 4 + 1] = k.w1;
        rk[i * 4 + 2] = k.w2;
        rk[i * 4 + 3] = k.w3;

        proof {
            reveal_with_fuel(key_state, 4);
        }
        i += 1;
    }
    assert(rk@ =~= expand_key(key@));
    rk
}

} // verus!
