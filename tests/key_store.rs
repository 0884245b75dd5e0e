use rust_seal::catalog::{KemAlgorithm, SigAlgorithm};
use rust_seal::config::{KemKeyRecord, SigKeyRecord};
use rust_seal::{Config, RustSealError};

#[test]
fn initialize_records_deterministic_paths() {
    let mut config = Config::new();
    let record = config.add_kem_algorithm(&KemAlgorithm::Kyber768).unwrap();
    assert_eq!(record.algorithm, KemAlgorithm::Kyber768);
    assert_eq!(record.pub_key_path, "./keys/kem/Kyber768.pub");
    assert_eq!(record.sec_key_path, "./keys/kem/Kyber768.sec");
    assert_eq!(config.kem_records(), &[record][..]);

    let sig = config.add_signature_algorithm(&SigAlgorithm::Dilithium2).unwrap();
    assert_eq!(sig.pub_key_path, "./keys/sig/Dilithium2.pub");
    assert_eq!(sig.sec_key_path, "./keys/sig/Dilithium2.sec");
}

#[test]
fn initialize_twice_fails_and_keeps_first_record() {
    let mut config = Config::new();
    let first = config.add_kem_algorithm(&KemAlgorithm::MlKem768).unwrap();
    assert_eq!(
        config.add_kem_algorithm(&KemAlgorithm::MlKem768),
        Err(RustSealError::AlreadyInitialized)
    );
    assert_eq!(config.kem_records().len(), 1);
    assert_eq!(config.get_kem_keys(&KemAlgorithm::MlKem768), Ok(first));

    config.add_signature_algorithm(&SigAlgorithm::Falcon512).unwrap();
    assert_eq!(
        config.add_signature_algorithm(&SigAlgorithm::Falcon512),
        Err(RustSealError::AlreadyInitialized)
    );
    assert_eq!(config.signature_records().len(), 1);
}

#[test]
fn lookup_of_uninitialized_algorithm_fails() {
    let mut config = Config::new();
    assert_eq!(
        config.get_kem_keys(&KemAlgorithm::Kyber512),
        Err(RustSealError::NotInitialized)
    );
    config.add_kem_algorithm(&KemAlgorithm::Kyber1024).unwrap();
    config.add_signature_algorithm(&SigAlgorithm::Dilithium3).unwrap();
    assert_eq!(
        config.get_kem_keys(&KemAlgorithm::Kyber512),
        Err(RustSealError::NotInitialized)
    );
    assert_eq!(
        config.get_signature_keys(&SigAlgorithm::Dilithium2),
        Err(RustSealError::NotInitialized)
    );
    assert!(config.get_signature_keys(&SigAlgorithm::Dilithium3).is_ok());
}

#[test]
fn families_are_separate() {
    let mut config = Config::new();
    config.add_kem_algorithm(&KemAlgorithm::Hqc128).unwrap();
    assert!(config.signature_records().is_empty());
    assert_eq!(config.kem_records().len(), 1);
}

#[test]
fn from_records_accepts_unique_and_rejects_duplicates() {
    let record = |alg: KemAlgorithm, p: &str| KemKeyRecord {
        algorithm: alg,
        pub_key_path: format!("{p}.pub"),
        sec_key_path: format!("{p}.sec"),
    };
    let config = Config::from_records(
        vec![record(KemAlgorithm::Kyber512, "a"), record(KemAlgorithm::Kyber768, "b")],
        vec![SigKeyRecord {
            algorithm: SigAlgorithm::Mayo1,
            pub_key_path: "m.pub".to_string(),
            sec_key_path: "m.sec".to_string(),
        }],
    )
    .unwrap();
    assert_eq!(
        config.get_kem_keys(&KemAlgorithm::Kyber768).unwrap().pub_key_path,
        "b.pub"
    );
    assert_eq!(
        config.get_signature_keys(&SigAlgorithm::Mayo1).unwrap().sec_key_path,
        "m.sec"
    );

    let duplicated = Config::from_records(
        vec![record(KemAlgorithm::Kyber512, "a"), record(KemAlgorithm::Kyber512, "b")],
        vec![],
    );
    assert_eq!(duplicated.unwrap_err(), RustSealError::ConfigCorrupt);
}
