use rust_seal::framing::extract_data_and_nonce;
use rust_seal::symmetric::{
    symmetric_decrypt, symmetric_encrypt, symmetric_encrypt_with_nonce, AES_KEY_SIZE,
    AES_NONCE_SIZE, AES_TAG_SIZE,
};
use rust_seal::RustSealError;

fn hex(s: &str) -> Vec<u8> {
    (0..s.len())
        .step_by(2)
        .map(|i| u8::from_str_radix(&s[i..i + 2], 16).unwrap())
        .collect()
}

#[test]
fn test_symmetric_encrypt_decrypt() {
    let data = b"Hello, World!";
    let key = [42u8; 32];

    let encrypted_data = symmetric_encrypt(data, &key).expect("Encryption failed");
    let decrypted_data = symmetric_decrypt(&encrypted_data, &key).expect("Decryption failed");

    assert_eq!(data, &decrypted_data[..]);
}

#[test]
fn encryption_frame_has_nonce_and_tag() {
    let data = b"Hello, World!";
    let key = [42u8; AES_KEY_SIZE];
    let framed = symmetric_encrypt(data, &key).unwrap();
    assert_eq!(framed[0] as usize, AES_NONCE_SIZE);
    assert_eq!(framed.len(), 1 + AES_NONCE_SIZE + data.len() + AES_TAG_SIZE);
    let (_, ciphertext) = extract_data_and_nonce(&framed).unwrap();
    assert_ne!(&ciphertext[..data.len()], &data[..]);
}

#[test]
fn encryption_with_known_nonce_matches_aes_gcm_vectors() {
    let key = [0u8; 32];
    let nonce = [0u8; 12];
    let empty = symmetric_encrypt_with_nonce(&[], &key, &nonce).unwrap();
    let mut expected = vec![12u8];
    expected.extend_from_slice(&nonce);
    expected.extend_from_slice(&hex("530f8afbc74536b9a963b4f1c4cb738b"));
    assert_eq!(empty, expected);

    let block = symmetric_encrypt_with_nonce(&[0u8; 16], &key, &nonce).unwrap();
    let mut expected = vec![12u8];
    expected.extend_from_slice(&nonce);
    expected.extend_from_slice(&hex("cea7403d4d606b6e074ec5d3baf39d18"));
    expected.extend_from_slice(&hex("d0d1c8a799996bf0265b98b5d48ab919"));
    assert_eq!(block, expected);
    assert_eq!(symmetric_decrypt(&block, &key).unwrap(), vec![0u8; 16]);
}

#[test]
fn two_encryptions_draw_different_nonces() {
    let key = [7u8; 32];
    let a = symmetric_encrypt(b"same", &key).unwrap();
    let b = symmetric_encrypt(b"same", &key).unwrap();
    assert_ne!(a[1..13], b[1..13]);
}

#[test]
fn flipping_any_ciphertext_bit_fails_authentication() {
    let key = [3u8; 32];
    let framed = symmetric_encrypt(b"attack at dawn", &key).unwrap();
    for byte in (1 + AES_NONCE_SIZE)..framed.len() {
        for bit in 0..8 {
            let mut tampered = framed.clone();
            tampered[byte] ^= 1 << bit;
            assert_eq!(
                symmetric_decrypt(&tampered, &key),
                Err(RustSealError::AuthenticationFailed)
            );
        }
    }
}

#[test]
fn flipping_a_nonce_bit_fails_authentication() {
    let key = [3u8; 32];
    let mut framed = symmetric_encrypt(b"attack at dawn", &key).unwrap();
    framed[5] ^= 0x10;
    assert_eq!(
        symmetric_decrypt(&framed, &key),
        Err(RustSealError::AuthenticationFailed)
    );
}

#[test]
fn decryption_with_wrong_key_fails_authentication() {
    let framed = symmetric_encrypt(b"secret", &[1u8; 32]).unwrap();
    assert_eq!(
        symmetric_decrypt(&framed, &[2u8; 32]),
        Err(RustSealError::AuthenticationFailed)
    );
}

#[test]
fn decryption_of_short_frame_fails() {
    assert_eq!(
        symmetric_decrypt(&[], &[0u8; 32]),
        Err(RustSealError::FramingTooShort)
    );
    assert_eq!(
        symmetric_decrypt(&[12, 1, 2], &[0u8; 32]),
        Err(RustSealError::FramingTooShort)
    );
}

#[test]
fn decryption_with_wrong_nonce_length_fails_authentication() {
    let mut framed = vec![4u8, 1, 2, 3, 4];
    framed.extend_from_slice(&[0u8; 32]);
    assert_eq!(
        symmetric_decrypt(&framed, &[0u8; 32]),
        Err(RustSealError::AuthenticationFailed)
    );
}
