use aes_engine::aes::aes_cbc::{decrypt, encrypt};
use aes_engine::aes::key::Key;
use aes_engine::aes::{add_padding, remove_padding, split_blocks, AesError, Block};

const LENGTHS: [usize; 8] = [0, 1, 15, 16, 17, 31, 32, 1000];

fn hex(s: &str) -> Vec<u8> {
    (0..s.len()).step_by(2).map(|i| u8::from_str_radix(&s[i..i + 2], 16).unwrap()).collect()
}

fn data(len: usize) -> Vec<u8> {
    (0..len).map(|i| (i * 7 + 3) as u8).collect()
}

#[test]
fn cbc_round_trip_all_sizes_and_lengths() {
    for bits in [128usize, 192, 256] {
        let key = Key::new(bits).unwrap();
        let iv: Block = [0x42; 16];
        for len in LENGTHS {
            let plain = data(len);
            let ct = encrypt(&key, &iv, &plain);
            assert_eq!(ct.len(), 16 + (len / 16 + 1) * 16);
            assert_eq!(&ct[..16], &iv[..]);
            assert_eq!(decrypt(&key, &ct), Ok(plain));
        }
    }
}

#[test]
fn cbc_first_block_matches_sp800_38a() {
    let key = Key::from(&hex("2b7e151628aed2a6abf7158809cf4f3c")).unwrap();
    let mut iv: Block = [0; 16];
    iv.copy_from_slice(&hex("000102030405060708090a0b0c0d0e0f"));
    let ct = encrypt(&key, &iv, &hex("6bc1bee22e409f96e93d7e117393172a"));
    assert_eq!(ct.len(), 48);
    assert_eq!(&ct[16..32], &hex("7649abac8119b246cee98e9b12e9197d")[..]);
}

#[test]
fn cbc_different_ivs_differ() {
    let key = Key::new(128).unwrap();
    let plain = data(40);
    let a = encrypt(&key, &[1; 16], &plain);
    let b = encrypt(&key, &[2; 16], &plain);
    assert_ne!(a, b);
    assert_ne!(a[16..32], b[16..32]);
}

#[test]
fn padding_adds_one_to_sixteen_bytes() {
    for len in 0..40usize {
        let plain = data(len);
        let padded = add_padding(&plain);
        let added = padded.len() - len;
        assert!((1..=16).contains(&added));
        assert_eq!(padded.len() % 16, 0);
        assert!(padded[len..].iter().all(|&b| b as usize == added));
        let mut back = padded.clone();
        assert_eq!(remove_padding(&mut back), Ok(()));
        assert_eq!(back, plain);
    }
    let full = add_padding(&data(16));
    assert_eq!(&full[16..], &[16u8; 16]);
}

#[test]
fn remove_padding_rejects_bad_lengths() {
    let mut empty: Vec<u8> = Vec::new();
    assert_eq!(remove_padding(&mut empty), Err(AesError::BadPadding));
    let mut zero = vec![1, 2, 0];
    assert_eq!(remove_padding(&mut zero), Err(AesError::BadPadding));
    assert_eq!(zero, vec![1, 2, 0]);
    let mut long = vec![1, 5];
    assert_eq!(remove_padding(&mut long), Err(AesError::BadPadding));
}

#[test]
fn split_blocks_cuts_aligned_buffer() {
    let bytes = data(48);
    let blocks = split_blocks(&bytes);
    assert_eq!(blocks.len(), 3);
    assert_eq!(&blocks[2][..], &bytes[32..48]);
}

#[test]
fn cbc_decrypt_format_errors() {
    let key = Key::new(192).unwrap();
    assert_eq!(decrypt(&key, &data(15)), Err(AesError::Truncated));
    assert_eq!(decrypt(&key, &data(33)), Err(AesError::NotBlockAligned));
    assert_eq!(decrypt(&key, &data(16)), Err(AesError::BadPadding));
}

#[test]
fn cbc_decrypt_reports_bad_padding() {
    let key = Key::from(&[9u8; 16]).unwrap();
    let ct = encrypt(&key, &[0; 16], &data(16));
    let mut forged = ct.clone();
    // The second plaintext block is all padding; flipping a bit of the first
    // ciphertext block flips the same bit of it, and its last byte becomes 0.
    forged[31] ^= 0x10;
    assert_eq!(decrypt(&key, &forged), Err(AesError::BadPadding));
}
