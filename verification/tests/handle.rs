//! The cipher handle: what holds of every key and block, tried on a few.

use sm4::rounds::sm4_encrypt;
use sm4::Sm4;

const KEY: [u8; 16] = [
    0x01, 0x23, 0x45, 0x67, 0x89, 0xab, 0xcd, 0xef, 0xfe, 0xdc, 0xba, 0x98, 0x76, 0x54, 0x32, 0x10,
];

const CIPHERTEXT: [u8; 16] = [
    0x68, 0x1e, 0xdf, 0x34, 0xd2, 0x06, 0x96, 0x5e, 0x86, 0xb3, 0xe9, 0x4f, 0x53, 0x6e, 0x42, 0x46,
];

/// A block that differs from call to call: byte `i` is `seed * 31 + i * 7`, wrapped.
fn sample(seed: u8) -> [u8; 16] {
    let mut out = [0u8; 16];
    for (i, byte) in out.iter_mut().enumerate() {
        *byte = seed.wrapping_mul(31).wrapping_add((i as u8).wrapping_mul(7));
    }
    out
}

fn distance(a: &[u8; 16], b: &[u8; 16]) -> u32 {
    let mut bits: u32 = 0;
    for i in 0..16usize {
        bits += (a[i] ^ b[i]).count_ones();
    }
    bits
}

#[test]
fn decrypt_undoes_encrypt() {
    for k in 0..=255u8 {
        let cipher = Sm4::new(&sample(k));
        for p in [0u8, 1, 77, 200, 255] {
            let plaintext = sample(p.wrapping_add(k));
            let mut block = plaintext;
            cipher.encrypt_block(&mut block);
            assert_ne!(block, plaintext);
            cipher.decrypt_block(&mut block);
            assert_eq!(block, plaintext);
        }
    }
}

#[test]
fn encrypt_undoes_decrypt() {
    for k in [0u8, 3, 128, 255] {
        let cipher = Sm4::new(&sample(k));
        let ciphertext = sample(k.wrapping_add(9));
        let mut block = ciphertext;
        cipher.decrypt_block(&mut block);
        cipher.encrypt_block(&mut block);
        assert_eq!(block, ciphertext);
    }
}

#[test]
fn same_key_and_block_give_the_same_ciphertext() {
    let first = Sm4::new(&KEY);
    let second = Sm4::new(&KEY);
    let mut a = sample(5);
    let mut b = sample(5);
    let mut c = sample(5);
    first.encrypt_block(&mut a);
    first.encrypt_block(&mut b);
    second.encrypt_block(&mut c);
    assert_eq!(a, b);
    assert_eq!(a, c);
}

#[test]
fn a_clone_works_as_the_handle_does() {
    let cipher = Sm4::new(&KEY);
    let copy = cipher.clone();
    let mut a = KEY;
    let mut b = KEY;
    cipher.encrypt_block(&mut a);
    copy.encrypt_block(&mut b);
    assert_eq!(a, CIPHERTEXT);
    assert_eq!(b, CIPHERTEXT);
}

#[test]
fn another_key_gives_another_ciphertext() {
    let mut other_key = KEY;
    other_key[15] ^= 1;
    let mut a = KEY;
    let mut b = KEY;
    Sm4::new(&KEY).encrypt_block(&mut a);
    Sm4::new(&other_key).encrypt_block(&mut b);
    assert_ne!(a, b);
}

#[test]
fn one_flipped_bit_changes_about_half_of_the_ciphertext() {
    let cipher = Sm4::new(&KEY);
    let mut total: u32 = 0;
    for bit in 0..128usize {
        let mut flipped = KEY;
        flipped[bit / 8] ^= 0x80u8 >> (bit % 8);
        let mut block = flipped;
        cipher.encrypt_block(&mut block);
        let changed = distance(&block, &CIPHERTEXT);
        assert!((32..=96).contains(&changed), "bit {}: {} bits changed", bit, changed);
        total += changed;
    }
    assert!((128 * 56..=128 * 72).contains(&total));
}

#[test]
fn a_batch_is_the_single_blocks_one_by_one() {
    let cipher = Sm4::new(&KEY);
    let plaintext: Vec<[u8; 16]> = (0..40u8).map(sample).collect();

    let mut batch = plaintext.clone();
    cipher.encrypt_blocks(&mut batch);
    assert_eq!(batch.len(), plaintext.len());
    for (i, p) in plaintext.iter().enumerate() {
        let mut single = *p;
        cipher.encrypt_block(&mut single);
        assert_eq!(batch[i], single);
    }

    let ciphertext = batch.clone();
    cipher.decrypt_blocks(&mut batch);
    for (i, c) in ciphertext.iter().enumerate() {
        let mut single = *c;
        cipher.decrypt_block(&mut single);
        assert_eq!(batch[i], single);
    }
    assert_eq!(batch, plaintext);
}

#[test]
fn a_batch_does_not_chain_its_blocks() {
    let cipher = Sm4::new(&KEY);
    let mut forwards = [sample(1), sample(2), sample(1)];
    let mut backwards = [sample(1), sample(2), sample(1)];
    backwards.reverse();
    cipher.encrypt_blocks(&mut forwards);
    cipher.encrypt_blocks(&mut backwards);
    backwards.reverse();
    assert_eq!(forwards, backwards);
    assert_eq!(forwards[0], forwards[2]);
    assert_ne!(forwards[0], forwards[1]);
}

#[test]
fn an_empty_batch_stays_empty() {
    let cipher = Sm4::new(&KEY);
    let mut blocks: [[u8; 16]; 0] = [];
    cipher.encrypt_blocks(&mut blocks);
    cipher.decrypt_blocks(&mut blocks);
    assert_eq!(blocks.len(), 0);
}

#[test]
fn a_batch_of_one_block() {
    let cipher = Sm4::new(&KEY);
    let mut blocks = [KEY];
    cipher.encrypt_blocks(&mut blocks);
    assert_eq!(blocks, [CIPHERTEXT]);
    cipher.decrypt_blocks(&mut blocks);
    assert_eq!(blocks, [KEY]);
}

#[test]
fn a_wiped_handle_holds_zero_round_keys() {
    let mut cipher = Sm4::new(&KEY);
    let mut before = KEY;
    cipher.encrypt_block(&mut before);
    assert_eq!(before, CIPHERTEXT);

    cipher.zeroize();

    let mut after = KEY;
    cipher.encrypt_block(&mut after);
    let mut expected = KEY;
    sm4_encrypt(&mut expected, &[0u32; 32]);
    assert_eq!(after, expected);
    assert_ne!(after, CIPHERTEXT);
    assert_eq!(
        after,
        [0x8f, 0x8a, 0x24, 0xf6, 0xc1, 0xb6, 0x9f, 0xd7, 0xdf, 0x46, 0xc0, 0xfc, 0xf6, 0x55, 0xcc, 0x3e]
    );
}

#[test]
fn wiping_one_handle_leaves_its_clone_alone() {
    let mut cipher = Sm4::new(&KEY);
    let copy = cipher.clone();
    cipher.zeroize();
    let mut block = KEY;
    copy.encrypt_block(&mut block);
    assert_eq!(block, CIPHERTEXT);
}

#[test]
fn names_do_not_show_the_key() {
    assert_eq!(Sm4::alg_name(), "Sm4");
    let cipher = Sm4::new(&KEY);
    assert_eq!(cipher.debug_string(), "Sm4 { ... }");
    assert_eq!(Sm4::new(&[0u8; 16]).debug_string(), cipher.debug_string());
}
