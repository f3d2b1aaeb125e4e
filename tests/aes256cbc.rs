use aes_engine::aes::AesError;
use aes_engine::aes256cbc::AES256CBC;
use aes_engine::key::Key;

#[test]
fn file_key_cbc_round_trip() {
    let key = Key::new(32).unwrap();
    assert_eq!(key.raw_bytes().len(), 32);
    assert_eq!(key.as_ref().len(), 240);
    let data: Vec<u8> = (0..100u8).collect();
    let ct = AES256CBC::encrypt(&key, vec![3; 16], data.clone());
    assert_eq!(ct.len(), 16 + 112);
    assert_eq!(AES256CBC::decrypt(&key, ct), Ok(data));
}

#[test]
fn file_key_from_bytes() {
    let key = Key::from_bytes(&[1u8; 16]).unwrap();
    assert_eq!(key.raw_bytes(), &vec![1u8; 16]);
    assert_eq!(key.as_ref().len(), 176);
    assert_eq!(Key::from_bytes(&[1u8; 10]).err(), Some(AesError::InvalidKeySize));
    assert_eq!(Key::new(12).err(), Some(AesError::InvalidKeySize));
}

#[test]
fn file_key_cbc_empty_and_truncated() {
    let key = Key::new(16).unwrap();
    let ct = AES256CBC::encrypt(&key, vec![0; 16], Vec::new());
    assert_eq!(ct.len(), 32);
    assert_eq!(AES256CBC::decrypt(&key, ct), Ok(Vec::new()));
    assert_eq!(AES256CBC::decrypt(&key, vec![0; 8]), Err(AesError::Truncated));
}
