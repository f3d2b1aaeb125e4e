use aes_engine::aes::aes_gcm::{decrypt, encrypt, gf128_multiply, ghash};
use aes_engine::aes::key::Key;
use aes_engine::aes::AesError;

const LENGTHS: [usize; 8] = [0, 1, 15, 16, 17, 31, 32, 1000];

fn hex(s: &str) -> Vec<u8> {
    (0..s.len()).step_by(2).map(|i| u8::from_str_radix(&s[i..i + 2], 16).unwrap()).collect()
}

fn data(len: usize) -> Vec<u8> {
    (0..len).map(|i| (i * 5 + 11) as u8).collect()
}

fn nonce(s: &str) -> [u8; 12] {
    let mut n = [0u8; 12];
    n.copy_from_slice(&hex(s));
    n
}

#[test]
fn gcm_empty_plaintext_vector() {
    let key = Key::from(&[0u8; 16]).unwrap();
    let out = encrypt(&key, &[0; 12], &Vec::new(), &Vec::new());
    assert_eq!(out.len(), 28);
    assert_eq!(&out[12..], &hex("58e2fccefa7e3061367f1d57a4e7455a")[..]);
}

#[test]
fn gcm_one_block_vector() {
    let key = Key::from(&[0u8; 16]).unwrap();
    let out = encrypt(&key, &[0; 12], &Vec::new(), &vec![0u8; 16]);
    assert_eq!(&out[12..28], &hex("0388dace60b6a392f328c2b971b2fe78")[..]);
    assert_eq!(&out[28..], &hex("ab6e47d42cec13bdf53a67b21257bddf")[..]);
}

#[test]
fn gcm_vector_with_aad() {
    let key = Key::from(&hex("feffe9928665731c6d6a8f9467308308")).unwrap();
    let n = nonce("cafebabefacedbaddecaf888");
    let aad = hex("feedfacedeadbeeffeedfacedeadbeefabaddad2");
    let plain = hex("d9313225f88406e5a55909c5aff5269a86a7a9531534f7da2e4c303d8a318a721c3c0c95956809532fcf0e2449a6b525b16aedf5aa0de657ba637b39");
    let out = encrypt(&key, &n, &aad, &plain);
    let ct = hex("42831ec2217774244b7221b784d0d49ce3aa212f2c02a4e035c17e2329aca12e21d514b25466931c7d8f6a5aac84aa051ba30b396a0aac973d58e091");
    assert_eq!(&out[..12], &n[..]);
    assert_eq!(&out[12..12 + ct.len()], &ct[..]);
    assert_eq!(&out[12 + ct.len()..], &hex("5bc94fbc3221a5db94fae95ae7121a47")[..]);
    assert_eq!(decrypt(&key, &aad, &out), Ok(plain));
}

#[test]
fn gcm_round_trip_all_sizes_and_lengths() {
    for bits in [128usize, 192, 256] {
        let key = Key::new(bits).unwrap();
        let n = [0x5a; 12];
        for len in LENGTHS {
            let plain = data(len);
            let aad = data(len % 23);
            let out = encrypt(&key, &n, &aad, &plain);
            assert_eq!(out.len(), 12 + len + 16);
            assert_eq!(decrypt(&key, &aad, &out), Ok(plain));
        }
    }
}

#[test]
fn gcm_tampering_fails_authentication() {
    let key = Key::new(128).unwrap();
    let n = [1; 12];
    let aad = data(20);
    let plain = data(40);
    let out = encrypt(&key, &n, &aad, &plain);
    for pos in [12usize, 30, 51, 52, 60, out.len() - 1] {
        for bit in [0x01u8, 0x80] {
            let mut forged = out.clone();
            forged[pos] ^= bit;
            assert_eq!(decrypt(&key, &aad, &forged), Err(AesError::AuthenticationFailed));
        }
    }
    for pos in [0usize, 7, 19] {
        let mut other = aad.clone();
        other[pos] ^= 0x10;
        assert_eq!(decrypt(&key, &other, &out), Err(AesError::AuthenticationFailed));
    }
    let mut nonce_changed = out.clone();
    nonce_changed[0] ^= 1;
    assert_eq!(decrypt(&key, &aad, &nonce_changed), Err(AesError::AuthenticationFailed));
}

#[test]
fn gcm_is_deterministic_for_fixed_nonce() {
    let key = Key::new(256).unwrap();
    let n = [9; 12];
    let aad = data(5);
    let plain = data(33);
    assert_eq!(encrypt(&key, &n, &aad, &plain), encrypt(&key, &n, &aad, &plain));
}

#[test]
fn gcm_truncated_input() {
    let key = Key::new(128).unwrap();
    assert_eq!(decrypt(&key, &Vec::new(), &data(27)), Err(AesError::Truncated));
}

#[test]
fn gf128_and_ghash_values() {
    let one: u128 = 1 << 127;
    let x: u128 = 0x66e94bd4ef8a2c3b884cfa59ca342b2e;
    assert_eq!(gf128_multiply(one, x), x);
    assert_eq!(gf128_multiply(x, 0), 0);
    let h = x;
    let input = hex("0388dace60b6a392f328c2b971b2fe7800000000000000000000000000000080");
    assert_eq!(ghash(h, &input), 0xf38cbb1ad69223dcc3457ae5b6b0f885);
}
