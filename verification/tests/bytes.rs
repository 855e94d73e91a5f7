use ssh_session::bytes::{append, copy, equal, has_bit_length};

#[test]
fn append_adds_at_the_end() {
    let mut out = vec![1u8, 2];
    append(&mut out, &[3, 4]);
    assert_eq!(out, vec![1, 2, 3, 4]);
    append(&mut out, &[]);
    assert_eq!(out, vec![1, 2, 3, 4]);
}

#[test]
fn copy_holds_the_same_bytes() {
    assert_eq!(copy(&[9, 8, 7]), vec![9, 8, 7]);
    assert!(copy(&[]).is_empty());
}

#[test]
fn equal_compares_length_and_content() {
    assert!(equal(&[], &[]));
    assert!(equal(&[1, 2], &[1, 2]));
    assert!(!equal(&[1, 2], &[1, 3]));
    assert!(!equal(&[1, 2], &[1]));
    assert!(!equal(&[], &[0]));
}

#[test]
fn bit_length_counts_from_the_highest_set_bit() {
    assert!(has_bit_length(&[], 0));
    assert!(has_bit_length(&[0, 0], 0));
    assert!(has_bit_length(&[1], 1));
    assert!(has_bit_length(&[0, 1], 1));
    assert!(has_bit_length(&[0x7f], 7));
    assert!(has_bit_length(&[0x80], 8));
    assert!(has_bit_length(&[0xff, 0], 16));
    assert!(has_bit_length(&[1, 0], 9));
    assert!(has_bit_length(&[0, 0x40, 0, 0], 23));
    assert!(!has_bit_length(&[0x80], 7));
    assert!(!has_bit_length(&[0x80], 9));
    assert!(!has_bit_length(&[1, 0], 16));
    assert!(!has_bit_length(&[], 1));
    assert!(!has_bit_length(&[0xff], u32::MAX));
    let mut modulus = vec![0u8; 256];
    modulus[0] = 0x80;
    assert!(has_bit_length(&modulus, 2048));
    modulus[0] = 0x7f;
    assert!(has_bit_length(&modulus, 2047));
}
