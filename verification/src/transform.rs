//! The word transforms from which both the round function and the key schedule
//! are built: the byte substitution `tau`, the linear diffusions `L` and `L'`,
//! and their compositions `T` and `T'`.
use vstd::prelude::*;
use crate::consts::SBOX;

verus! {

/// The substitution box as a function on bytes.
pub open spec fn sbox(b: u8) -> u8 {
    SBOX@[b as int]
}

/// Byte `i` of the word `w` in big-endian order: byte 0 is the most significant.
pub open spec fn be_byte(w: u32, i: int) -> u8 {
    if i == 0 {
        (w >> 24) as u8
    } else if i == 1 {
        (w >> 16) as u8
    } else if i == 2 {
        (w >> 8) as u8
    } else {
        w as u8
    }
}

/// The word whose big-endian bytes are `b0`, `b1`, `b2`, `b3`.
pub open spec fn be_word(b0: u8, b1: u8, b2: u8, b3: u8) -> u32 {
    (b0 as u32) << 24 | (b1 as u32) << 16 | (b2 as u32) << 8 | (b3 as u32)
}

/// Left circular rotation of a 32-bit word by `n` bits, for `0 < n < 32`: the bits
/// shifted out at the top come back in at the bottom.
pub open spec fn rotl(x: u32, n: u32) -> u32
    recommends
        0 < n < 32,
{
    x << n | x >> ((32 - n) as u32)
}

/// Bit `i` of the word `x`, bit 0 being the least significant.
pub open spec fn bit(x: u32, i: u32) -> bool
    recommends
        i < 32,
{
    (x >> i) & 1 == 1
}

/// Rotation to the left by `n` moves every bit `n` places up, and the bits that
/// would leave at the top to the bottom: bit `i` of `x` is bit `i + n` of
/// `rotl(x, n)`, counted modulo 32.
pub proof fn lemma_rotl_bit(x: u32, n: u32, i: u32)
    requires
        0 < n < 32,
        i < 32,
    ensures
        bit(rotl(x, n), ((i + n) % 32) as u32) == bit(x, i),
{
    assert(((x << n | x >> ((32 - n) as u32)) >> (((i + n) % 32) as u32)) & 1 == (x >> i) & 1)
        by (bit_vector)
        requires
            0 < n < 32,
            i < 32,
    ;
}

/// The substitution `tau`: the substitution box applied to each of the four bytes.
pub open spec fn spec_tau(a: u32) -> u32 {
    be_word(sbox(be_byte(a, 0)), sbox(be_byte(a, 1)), sbox(be_byte(a, 2)), sbox(be_byte(a, 3)))
}

/// The linear diffusion `L` of the round function.
pub open spec fn spec_el(b: u32) -> u32 {
    b ^ rotl(b, 2) ^ rotl(b, 10) ^ rotl(b, 18) ^ rotl(b, 24)
}

/// The linear diffusion `L'` of the key schedule.
pub open spec fn spec_el_prime(b: u32) -> u32 {
    b ^ rotl(b, 13) ^ rotl(b, 23)
}

/// The mixing function `T` of the round function: `L` after `tau`.
pub open spec fn spec_t(val: u32) -> u32 {
    spec_el(spec_tau(val))
}

/// The mixing function `T'` of the key schedule: `L'` after `tau`.
pub open spec fn spec_t_prime(val: u32) -> u32 {
    spec_el_prime(spec_tau(val))
}

/// Splits a word into its four big-endian bytes.
pub fn word_to_be(w: u32) -> (b: [u8; 4])
    ensures
        forall|i: int| 0 <= i < 4 ==> b[i] == be_byte(w, i),
{
    [(w >> 24) as u8, (w >> 16) as u8, (w >> 8) as u8, w as u8]
}

/// Assembles a word from its four big-endian bytes.
pub fn word_from_be(b0: u8, b1: u8, b2: u8, b3: u8) -> (w: u32)
    ensures
        w == be_word(b0, b1, b2, b3),
{
    (b0 as u32) << 24 | (b1 as u32) << 16 | (b2 as u32) << 8 | (b3 as u32)
}

/// Substitutes each byte of `a` through the substitution box.
pub fn tau(a: u32) -> (r: u32)
    ensures
        r == spec_tau(a),
{
    let buf = word_to_be(a);
    word_from_be(
        SBOX[buf[0] as usize],
        SBOX[buf[1] as usize],
        SBOX[buf[2] as usize],
        SBOX[buf[3] as usize],
    )
}

/// Computes `L`.
pub fn el(b: u32) -> (r: u32)
    ensures
        r == spec_el(b),
{
    b ^ (b << 2 | b >> 30) ^ (b << 10 | b >> 22) ^ (b << 18 | b >> 14) ^ (b << 24 | b >> 8)
}

/// Computes `L'`.
pub fn el_prime(b: u32) -> (r: u32)
    ensures
        r == spec_el_prime(b),
{
    b ^ (b << 13 | b >> 19) ^ (b << 23 | b >> 9)
}

/// Computes `T`.
pub fn t(val: u32) -> (r: u32)
    ensures
        r == spec_t(val),
{
    el(tau(val))
}

/// Computes `T'`.
pub fn t_prime(val: u32) -> (r: u32)
    ensures
        r == spec_t_prime(val),
{
    el_prime(tau(val))
}

} // verus!
