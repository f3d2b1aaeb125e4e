use aes_engine::aes::aes_ctr::{apply_keystream, decrypt, encrypt, inc32};
use aes_engine::aes::key::Key;
use aes_engine::aes::{AesError, Block};

const LENGTHS: [usize; 8] = [0, 1, 15, 16, 17, 31, 32, 1000];

fn hex(s: &str) -> Vec<u8> {
    (0..s.len()).step_by(2).map(|i| u8::from_str_radix(&s[i..i + 2], 16).unwrap()).collect()
}

fn data(len: usize) -> Vec<u8> {
    (0..len).map(|i| (i * 13 + 1) as u8).collect()
}

#[test]
fn ctr_round_trip_all_sizes_and_lengths() {
    for bits in [128usize, 192, 256] {
        let key = Key::new(bits).unwrap();
        let nonce: Block = [0x24; 16];
        for len in LENGTHS {
            let plain = data(len);
            let ct = encrypt(&key, &nonce, &plain);
            assert_eq!(ct.len(), 16 + len);
            assert_eq!(decrypt(&key, &ct), Ok(plain));
        }
    }
}

#[test]
fn ctr_matches_sp800_38a() {
    let key = Key::from(&hex("2b7e151628aed2a6abf7158809cf4f3c")).unwrap();
    let mut nonce: Block = [0; 16];
    nonce.copy_from_slice(&hex("f0f1f2f3f4f5f6f7f8f9fafbfcfdfeff"));
    let plain = hex("6bc1bee22e409f96e93d7e117393172aae2d8a571e03ac9c9eb76fac45af8e51");
    let ct = apply_keystream(&key, &nonce, &plain);
    assert_eq!(ct, hex("874d6191b620e3261bef6864990db6ce9806f66b7970fdff8617187bb9fffdff"));
}

#[test]
fn ctr_is_self_inverse() {
    let key = Key::new(256).unwrap();
    let nonce: Block = [7; 16];
    let plain = data(77);
    let ct = apply_keystream(&key, &nonce, &plain);
    assert_ne!(ct, plain);
    assert_eq!(apply_keystream(&key, &nonce, &ct), plain);
}

#[test]
fn ctr_bit_flip_is_local() {
    let key = Key::new(128).unwrap();
    let nonce: Block = [3; 16];
    let plain = data(50);
    let ct = apply_keystream(&key, &nonce, &plain);
    for pos in [0usize, 15, 16, 33, 49] {
        let mut forged = ct.clone();
        forged[pos] ^= 0x04;
        let back = apply_keystream(&key, &nonce, &forged);
        for i in 0..plain.len() {
            if i == pos {
                assert_eq!(back[i], plain[i] ^ 0x04);
            } else {
                assert_eq!(back[i], plain[i]);
            }
        }
    }
}

#[test]
fn ctr_counter_wraps_in_its_field() {
    let mut counter: Block = [0xff; 16];
    inc32(&mut counter);
    let mut expected = [0xff; 16];
    expected[12..].copy_from_slice(&[0, 0, 0, 0]);
    assert_eq!(counter, expected);
    let mut counter: Block = [0; 16];
    counter[15] = 0xff;
    inc32(&mut counter);
    assert_eq!(counter[14..], [1, 0]);
}

#[test]
fn ctr_decrypt_truncated() {
    let key = Key::new(128).unwrap();
    assert_eq!(decrypt(&key, &data(15)), Err(AesError::Truncated));
    assert_eq!(decrypt(&key, &data(16)), Ok(Vec::new()));
}
