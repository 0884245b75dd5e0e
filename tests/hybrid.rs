use rust_seal::hybrid::{decrypt_file, encrypt_file};
use rust_seal::catalog::convert_str_to_kem_alg;
use rust_seal::{Config, RustSealError};

#[test]
fn hybrid_round_trip_thirteen_bytes() {
    let shared_secret: Vec<u8> = (0..32u8).collect();
    let content = b"Hello, World!";
    assert_eq!(content.len(), 13);
    let framed = encrypt_file(&shared_secret, content).unwrap();
    let recovered = decrypt_file(&shared_secret, &framed).unwrap();
    assert_eq!(recovered, content.to_vec());
}

#[test]
fn hybrid_round_trip_empty_and_long_secret() {
    let shared_secret = vec![0xabu8; 64];
    let framed = encrypt_file(&shared_secret, &[]).unwrap();
    assert!(decrypt_file(&shared_secret, &framed).unwrap().is_empty());
}

#[test]
fn hybrid_uses_the_first_32_bytes_of_the_secret() {
    let mut long_secret = vec![5u8; 32];
    long_secret.extend_from_slice(&[9u8; 16]);
    let framed = encrypt_file(&long_secret, b"prefix").unwrap();
    assert_eq!(decrypt_file(&[5u8; 32], &framed).unwrap(), b"prefix".to_vec());
}

#[test]
fn hybrid_short_secret_is_refused() {
    let short = vec![1u8; 31];
    assert_eq!(
        encrypt_file(&short, b"data"),
        Err(RustSealError::SharedSecretTooShort)
    );
    assert_eq!(
        decrypt_file(&short, &[0u8; 40]),
        Err(RustSealError::SharedSecretTooShort)
    );
}

#[test]
fn hybrid_wrong_secret_fails_authentication() {
    let framed = encrypt_file(&[1u8; 32], b"data").unwrap();
    assert_eq!(
        decrypt_file(&[2u8; 32], &framed),
        Err(RustSealError::AuthenticationFailed)
    );
}

#[test]
fn hybrid_tampered_ciphertext_fails_authentication() {
    let secret = [8u8; 32];
    let framed = encrypt_file(&secret, b"Hello, World!").unwrap();
    let mut tampered = framed.clone();
    let last = tampered.len() - 1;
    tampered[last] ^= 0x01;
    tampered[14] ^= 0x80;
    assert_eq!(
        decrypt_file(&secret, &tampered),
        Err(RustSealError::AuthenticationFailed)
    );
}

#[test]
fn initialize_kyber768_then_encrypt_and_decrypt_thirteen_bytes() {
    let mut config = Config::new();
    let algorithm = convert_str_to_kem_alg("Kyber768").unwrap();
    let record = config.add_kem_algorithm(&algorithm).unwrap();
    assert_eq!(config.get_kem_keys(&algorithm), Ok(record));

    // The 32-byte shared secret that Kyber768 agrees on, fixed here.
    let shared_secret: Vec<u8> = (100..132u8).collect();
    let content = *b"thirteen byte";
    let framed = encrypt_file(&shared_secret, &content).unwrap();
    assert_eq!(decrypt_file(&shared_secret, &framed).unwrap(), content.to_vec());
}
