use aes_engine::aes::key::Key;
use aes_engine::aes::AesError;

fn hex(s: &str) -> Vec<u8> {
    (0..s.len()).step_by(2).map(|i| u8::from_str_radix(&s[i..i + 2], 16).unwrap()).collect()
}

#[test]
fn key_expansion_test() {
    let key = Key::from(&[0x2b, 0x7e, 0x15, 0x16, 0x28, 0xae, 0xd2, 0xa6, 0xab, 0xf7, 0x15, 0x88, 0x09, 0xcf, 0x4f, 0x3c]).unwrap();

    let expected_output = vec![0x2b, 0x7e, 0x15, 0x16, 0x28, 0xae, 0xd2, 0xa6, 0xab, 0xf7, 0x15, 0x88, 0x09, 0xcf, 0x4f, 0x3c,
                               0xa0, 0xfa, 0xfe, 0x17, 0x88, 0x54, 0x2c, 0xb1, 0x23, 0xa3, 0x39, 0x39, 0x2a, 0x6c, 0x76, 0x05,
                               0xf2, 0xc2, 0x95, 0xf2, 0x7a, 0x96, 0xb9, 0x43, 0x59, 0x35, 0x80, 0x7a, 0x73, 0x59, 0xf6, 0x7f,
                               0x3d, 0x80, 0x47, 0x7d, 0x47, 0x16, 0xfe, 0x3e, 0x1e, 0x23, 0x7e, 0x44, 0x6d, 0x7a, 0x88, 0x3b,
                               0xef, 0x44, 0xa5, 0x41, 0xa8, 0x52, 0x5b, 0x7f, 0xb6, 0x71, 0x25, 0x3b, 0xdb, 0x0b, 0xad, 0x00,
                               0xd4, 0xd1, 0xc6, 0xf8, 0x7c, 0x83, 0x9d, 0x87, 0xca, 0xf2, 0xb8, 0xbc, 0x11, 0xf9, 0x15, 0xbc,
                               0x6d, 0x88, 0xa3, 0x7a, 0x11, 0x0b, 0x3e, 0xfd, 0xdb, 0xf9, 0x86, 0x41, 0xca, 0x00, 0x93, 0xfd,
                               0x4e, 0x54, 0xf7, 0x0e, 0x5f, 0x5f, 0xc9, 0xf3, 0x84, 0xa6, 0x4f, 0xb2, 0x4e, 0xa6, 0xdc, 0x4f,
                               0xea, 0xd2, 0x73, 0x21, 0xb5, 0x8d, 0xba, 0xd2, 0x31, 0x2b, 0xf5, 0x60, 0x7f, 0x8d, 0x29, 0x2f,
                               0xac, 0x77, 0x66, 0xf3, 0x19, 0xfa, 0xdc, 0x21, 0x28, 0xd1, 0x29, 0x41, 0x57, 0x5c, 0x00, 0x6e,
                               0xd0, 0x14, 0xf9, 0xa8, 0xc9, 0xee, 0x25, 0x89, 0xe1, 0x3f, 0x0c, 0xc8, 0xb6, 0x63, 0x0c, 0xa6];

    assert_eq!(key.expanded(), &expected_output);
}

#[test]
fn key_schedule_192_last_word() {
    let key = Key::from(&hex("8e73b0f7da0e6452c810f32b809079e562f8ead2522c6b7b")).unwrap();
    let schedule = key.expanded();
    assert_eq!(schedule.len(), 208);
    assert_eq!(&schedule[204..], &hex("01002202")[..]);
    assert_eq!(key.size_bits(), 192);
    assert_eq!(key.size_bytes(), 24);
}

#[test]
fn key_schedule_256_last_word() {
    let key = Key::from(&hex("603deb1015ca71be2b73aef0857d77811f352c073b6108d72d9810a30914dff4")).unwrap();
    let schedule = key.expanded();
    assert_eq!(schedule.len(), 240);
    assert_eq!(&schedule[236..], &hex("706c631e")[..]);
    assert_eq!(&schedule[..32], &key.vec()[..]);
}

#[test]
fn key_from_rejects_other_lengths() {
    for len in [0usize, 1, 15, 17, 20, 31, 33, 64] {
        let bytes = vec![7u8; len];
        assert_eq!(Key::from(&bytes).err(), Some(AesError::InvalidKeySize));
    }
}

#[test]
fn key_new_sizes() {
    for (bits, bytes, schedule) in [(128usize, 16usize, 176usize), (192, 24, 208), (256, 32, 240)] {
        let key = Key::new(bits).unwrap();
        assert_eq!(key.size_bits(), bits);
        assert_eq!(key.size_bytes(), bytes);
        assert_eq!(key.vec().len(), bytes);
        assert_eq!(key.expanded().len(), schedule);
        assert_eq!(Key::from(key.vec()).unwrap().expanded(), key.expanded());
    }
    assert_eq!(Key::new(100).err(), Some(AesError::InvalidKeySize));
    assert_eq!(Key::new(0).err(), Some(AesError::InvalidKeySize));
}

#[test]
fn random_keys_differ() {
    let a = Key::new(256).unwrap();
    let b = Key::new(256).unwrap();
    assert_ne!(a.vec(), b.vec());
}
