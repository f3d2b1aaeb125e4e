use aes_engine::aes::consts::{inv_s_box, s_box};
use aes_engine::aes::key::Key;
use aes_engine::aes::{
    add_round_key, decrypt_block, encrypt_block, gmul, inv_mix_columns, inv_shift_rows, inv_sub_bytes,
    mix_columns, shift_rows, sub_bytes, xor_block, Block,
};

fn hex(s: &str) -> Vec<u8> {
    (0..s.len()).step_by(2).map(|i| u8::from_str_radix(&s[i..i + 2], 16).unwrap()).collect()
}

fn block(s: &str) -> Block {
    let mut b = [0u8; 16];
    b.copy_from_slice(&hex(s));
    b
}

fn sample() -> Block {
    block("d4bf5d30e0b452aeb84111f11e2798e5")
}

#[test]
fn gmul_known_products() {
    assert_eq!(gmul(0x57, 0x83), 0xc1);
    assert_eq!(gmul(0x57, 0x13), 0xfe);
    assert_eq!(gmul(0x02, 0x80), 0x1b);
    assert_eq!(gmul(0x00, 0xff), 0x00);
    assert_eq!(gmul(0x01, 0xab), 0xab);
}

#[test]
fn sbox_entries() {
    assert_eq!(s_box(0x00), 0x63);
    assert_eq!(s_box(0x53), 0xed);
    assert_eq!(inv_s_box(0xed), 0x53);
    for b in 0..=255u8 {
        assert_eq!(inv_s_box(s_box(b)), b);
    }
}

#[test]
fn mix_columns_known_column() {
    let mut state = sample();
    mix_columns(&mut state);
    assert_eq!(state[..4], [0x04, 0x66, 0x81, 0xe5]);
    assert_eq!(state, block("046681e5e0cb199a48f8d37a2806264c"));
}

#[test]
fn mix_columns_inverse_identity() {
    let initial = sample();
    let mut state = initial;
    mix_columns(&mut state);
    assert_ne!(state, initial);
    inv_mix_columns(&mut state);
    assert_eq!(state, initial);
}

#[test]
fn shift_rows_moves_rows() {
    let mut state: Block = [0, 1, 2, 3, 4, 5, 6, 7, 8, 9, 10, 11, 12, 13, 14, 15];
    shift_rows(&mut state);
    assert_eq!(state, [0, 5, 10, 15, 4, 9, 14, 3, 8, 13, 2, 7, 12, 1, 6, 11]);
    inv_shift_rows(&mut state);
    assert_eq!(state, [0, 1, 2, 3, 4, 5, 6, 7, 8, 9, 10, 11, 12, 13, 14, 15]);
}

#[test]
fn sub_bytes_inverse_identity() {
    let initial = sample();
    let mut state = initial;
    sub_bytes(&mut state);
    assert_eq!(state[0], s_box(0xd4));
    inv_sub_bytes(&mut state);
    assert_eq!(state, initial);
}

#[test]
fn xor_and_round_key() {
    let mut state: Block = [0xff; 16];
    let input: Block = [0x0f; 16];
    xor_block(&input, &mut state);
    assert_eq!(state, [0xf0; 16]);
    let schedule: Vec<u8> = (0..32).collect();
    let mut zero: Block = [0; 16];
    add_round_key(&schedule, 1, &mut zero);
    assert_eq!(zero[0], 16);
    assert_eq!(zero[15], 31);
}

#[test]
fn fips_block_vectors() {
    let cases = [
        ("000102030405060708090a0b0c0d0e0f", 10, "69c4e0d86a7b0430d8cdb78070b4c55a"),
        ("000102030405060708090a0b0c0d0e0f1011121314151617", 12, "dda97ca4864cdfe06eaf70a0ec0d7191"),
        ("000102030405060708090a0b0c0d0e0f101112131415161718191a1b1c1d1e1f", 14, "8ea2b7ca516745bfeafc49904b496089"),
    ];
    for (key_hex, nr, expected) in cases {
        let key = Key::from(&hex(key_hex)).unwrap();
        let plain = block("00112233445566778899aabbccddeeff");
        let mut state = plain;
        encrypt_block(key.expanded(), nr, &mut state);
        assert_eq!(state, block(expected));
        decrypt_block(key.expanded(), nr, &mut state);
        assert_eq!(state, plain);
    }
}
