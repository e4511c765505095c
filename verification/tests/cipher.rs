use xor_cipher::cipher::{apply, decryption, encryption, transform};
use xor_cipher::mode::Mode;

#[test]
fn encrypt_then_decrypt_restores_hi() {
    let mut data: Vec<u8> = vec![72, 105];
    encryption(&mut data, 5);
    assert_eq!(data, vec![77, 108]);
    decryption(&mut data, 5);
    assert_eq!(data, vec![72, 105]);
}

#[test]
fn transform_masks_every_byte() {
    let mut data: Vec<u8> = vec![0xFF, 0x00, 0x0F, 0xA5];
    transform(&mut data, 0x0F);
    assert_eq!(data, vec![0xF0, 0x0F, 0x00, 0xAA]);
}

#[test]
fn transform_twice_restores_under_every_key() {
    let plain: Vec<u8> = (0..=255).collect();
    for key in 0..=255u8 {
        let mut data = plain.clone();
        transform(&mut data, key);
        transform(&mut data, key);
        assert_eq!(data, plain);
    }
}

#[test]
fn transform_keeps_the_length() {
    for length in [0usize, 1, 2, 17, 1000] {
        let mut data: Vec<u8> = vec![9; length];
        transform(&mut data, 200);
        assert_eq!(data.len(), length);
    }
}

#[test]
fn transform_with_zero_key_changes_nothing() {
    let mut data: Vec<u8> = vec![0, 1, 127, 128, 255];
    transform(&mut data, 0);
    assert_eq!(data, vec![0, 1, 127, 128, 255]);
}

#[test]
fn transform_with_nonzero_key_changes_every_byte() {
    let plain: Vec<u8> = vec![0, 1, 127, 128, 255];
    let mut data = plain.clone();
    transform(&mut data, 1);
    assert_eq!(data, vec![1, 0, 126, 129, 254]);
}

#[test]
fn transform_leaves_an_empty_buffer_empty() {
    let mut data: Vec<u8> = Vec::new();
    transform(&mut data, 77);
    assert!(data.is_empty());
}

#[test]
fn encryption_and_decryption_are_the_same_mask() {
    let mut encrypted: Vec<u8> = vec![10, 20, 30];
    let mut decrypted: Vec<u8> = vec![10, 20, 30];
    encryption(&mut encrypted, 99);
    decryption(&mut decrypted, 99);
    assert_eq!(encrypted, decrypted);
    assert_eq!(encrypted, vec![10 ^ 99, 20 ^ 99, 30 ^ 99]);
}

#[test]
fn apply_restores_in_either_order_of_modes() {
    let plain: Vec<u8> = b"attack at dawn".to_vec();
    for (first, second) in [
        (Mode::Encrypt, Mode::Decrypt),
        (Mode::Decrypt, Mode::Encrypt),
        (Mode::Encrypt, Mode::Encrypt),
        (Mode::Decrypt, Mode::Decrypt),
    ] {
        let mut data = plain.clone();
        apply(first, &mut data, 42);
        assert_ne!(data, plain);
        apply(second, &mut data, 42);
        assert_eq!(data, plain);
    }
}
