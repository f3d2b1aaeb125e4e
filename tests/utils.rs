use aes_engine::utils::{prepend_vec, rand_bytes, transpose_matrix};

#[test]
fn transpose_text() {
    let mut vec = vec![0, 1, 2, 3, 4, 5, 6, 7, 8];
    let expected = vec![0, 3, 6, 1, 4, 7, 2, 5, 8];
    transpose_matrix(&mut vec, 3, 3);
    assert_eq!(vec, expected);
}

#[test]
fn transpose_four_by_four_twice() {
    let initial: Vec<u8> = (0..16).collect();
    let mut vec = initial.clone();
    transpose_matrix(&mut vec, 4, 4);
    assert_eq!(vec, vec![0, 4, 8, 12, 1, 5, 9, 13, 2, 6, 10, 14, 3, 7, 11, 15]);
    transpose_matrix(&mut vec, 4, 4);
    assert_eq!(vec, initial);
}

#[test]
fn prepend_puts_prefix_first() {
    let mut vec = vec![4, 5];
    prepend_vec(&mut vec, vec![1, 2, 3]);
    assert_eq!(vec, vec![1, 2, 3, 4, 5]);
    let mut empty: Vec<u8> = Vec::new();
    prepend_vec(&mut empty, vec![9]);
    assert_eq!(empty, vec![9]);
}

#[test]
fn rand_bytes_length() {
    assert_eq!(rand_bytes(0).unwrap().len(), 0);
    let a = rand_bytes(33).unwrap();
    let b = rand_bytes(33).unwrap();
    assert_eq!(a.len(), 33);
    assert_ne!(a, b);
}

#[test]
fn transpose_keeps_elements_after_matrix() {
    let mut vec = vec![1, 2, 3, 4, 9, 9];
    transpose_matrix(&mut vec, 2, 2);
    assert_eq!(vec, vec![1, 3, 2, 4, 9, 9]);
}
