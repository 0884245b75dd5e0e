use rust_seal::catalog::{convert_str_to_kem_alg, convert_str_to_sig_alg, KemAlgorithm, SigAlgorithm};
use rust_seal::RustSealError;

#[test]
fn resolves_dilithium2() {
    assert_eq!(convert_str_to_sig_alg("Dilithium2"), Ok(SigAlgorithm::Dilithium2));
}

#[test]
fn rejects_unknown_signature_name() {
    assert_eq!(
        convert_str_to_sig_alg("not-a-real-algorithm"),
        Err(RustSealError::UnsupportedAlgorithm)
    );
}

#[test]
fn resolves_kem_names() {
    assert_eq!(convert_str_to_kem_alg("Kyber768"), Ok(KemAlgorithm::Kyber768));
    assert_eq!(convert_str_to_kem_alg("ML-KEM-768"), Ok(KemAlgorithm::MlKem768));
    assert_eq!(convert_str_to_kem_alg("BIKE-L1"), Ok(KemAlgorithm::BikeL1));
    assert_eq!(
        convert_str_to_kem_alg("sntrup761"),
        Ok(KemAlgorithm::NtruPrimeSntrup761)
    );
}

#[test]
fn names_are_case_sensitive_and_exact() {
    assert_eq!(
        convert_str_to_kem_alg("kyber768"),
        Err(RustSealError::UnsupportedAlgorithm)
    );
    assert_eq!(
        convert_str_to_kem_alg("Kyber768 "),
        Err(RustSealError::UnsupportedAlgorithm)
    );
    assert_eq!(convert_str_to_kem_alg(""), Err(RustSealError::UnsupportedAlgorithm));
    assert_eq!(
        convert_str_to_sig_alg("Kyber768"),
        Err(RustSealError::UnsupportedAlgorithm)
    );
}

#[test]
fn names_resolve_back_to_their_algorithm() {
    for alg in [
        SigAlgorithm::Dilithium2,
        SigAlgorithm::SphincsShake256sSimple,
        SigAlgorithm::UovOvVPkcSkc,
        SigAlgorithm::CrossRsdpg256Small,
        SigAlgorithm::Falcon1024,
    ] {
        assert_eq!(convert_str_to_sig_alg(alg.name()), Ok(alg));
    }
    for alg in [
        KemAlgorithm::ClassicMcEliece8192128f,
        KemAlgorithm::FrodoKem1344Shake,
        KemAlgorithm::Hqc256,
    ] {
        assert_eq!(convert_str_to_kem_alg(alg.name()), Ok(alg));
    }
    assert_eq!(SigAlgorithm::MlDsa65.name(), "ML-DSA-65");
}

#[test]
fn error_messages() {
    assert_eq!(
        RustSealError::UnsupportedAlgorithm.message(),
        "unsupported algorithm"
    );
    assert_eq!(
        RustSealError::SharedSecretTooShort.message(),
        "shared secret is too short, use another KEM algorithm"
    );
}
