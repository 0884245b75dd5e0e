use vstd::prelude::*;

use crate::error::RustSealError;

verus! {

/// Whether `s` is exactly `name`.
fn name_is(s: &str, name: &str) -> (r: bool)
    ensures
        r == (s@ == name@),
{
    let a = s.to_owned();
    let b = name.to_owned();
    a == b
}

/// A key encapsulation mechanism of the catalog.
#[derive(Debug, Clone, Copy, PartialEq, Eq, Structural)]
pub enum KemAlgorithm {
    BikeL3,
    BikeL5,
    ClassicMcEliece348864,
    ClassicMcEliece348864f,
    ClassicMcEliece460896,
    ClassicMcEliece460896f,
    ClassicMcEliece6688128,
    ClassicMcEliece6688128f,
    ClassicMcEliece6960119,
    ClassicMcEliece6960119f,
    ClassicMcEliece8192128,
    ClassicMcEliece8192128f,
    Hqc128,
    Hqc192,
    Hqc256,
    Kyber512,
    Kyber768,
    Kyber1024,
    MlKem512,
    MlKem768,
    MlKem1024,
    NtruPrimeSntrup761,
    FrodoKem640Aes,
    FrodoKem640Shake,
    FrodoKem976Aes,
    FrodoKem976Shake,
    FrodoKem1344Aes,
    FrodoKem1344Shake,
    BikeL1,
}

impl KemAlgorithm {
    /// The canonical name of the algorithm.
    pub open spec fn spec_name(self) -> Seq<char> {
        match self {
            KemAlgorithm::BikeL3 => "BIKE-L3"@,
            KemAlgorithm::BikeL5 => "BIKE-L5"@,
            KemAlgorithm::ClassicMcEliece348864 => "Classic-McEliece-348864"@,
            KemAlgorithm::ClassicMcEliece348864f => "Classic-McEliece-348864f"@,
            KemAlgorithm::ClassicMcEliece460896 => "Classic-McEliece-460896"@,
            KemAlgorithm::ClassicMcEliece460896f => "Classic-McEliece-460896f"@,
            KemAlgorithm::ClassicMcEliece6688128 => "Classic-McEliece-6688128"@,
            KemAlgorithm::ClassicMcEliece6688128f => "Classic-McEliece-6688128f"@,
            KemAlgorithm::ClassicMcEliece6960119 => "Classic-McEliece-6960119"@,
            KemAlgorithm::ClassicMcEliece6960119f => "Classic-McEliece-6960119f"@,
            KemAlgorithm::ClassicMcEliece8192128 => "Classic-McEliece-8192128"@,
            KemAlgorithm::ClassicMcEliece8192128f => "Classic-McEliece-8192128f"@,
            KemAlgorithm::Hqc128 => "HQC-128"@,
            KemAlgorithm::Hqc192 => "HQC-192"@,
            KemAlgorithm::Hqc256 => "HQC-256"@,
            KemAlgorithm::Kyber512 => "Kyber512"@,
            KemAlgorithm::Kyber768 => "Kyber768"@,
            KemAlgorithm::Kyber1024 => "Kyber1024"@,
            KemAlgorithm::MlKem512 => "ML-KEM-512"@,
            KemAlgorithm::MlKem768 => "ML-KEM-768"@,
            KemAlgorithm::MlKem1024 => "ML-KEM-1024"@,
            KemAlgorithm::NtruPrimeSntrup761 => "sntrup761"@,
            KemAlgorithm::FrodoKem640Aes => "FrodoKEM-640-AES"@,
            KemAlgorithm::FrodoKem640Shake => "FrodoKEM-640-SHAKE"@,
            KemAlgorithm::FrodoKem976Aes => "FrodoKEM-976-AES"@,
            KemAlgorithm::FrodoKem976Shake => "FrodoKEM-976-SHAKE"@,
            KemAlgorithm::FrodoKem1344Aes => "FrodoKEM-1344-AES"@,
            KemAlgorithm::FrodoKem1344Shake => "FrodoKEM-1344-SHAKE"@,
            KemAlgorithm::BikeL1 => "BIKE-L1"@,
        }
    }

    /// The canonical name of the algorithm.
    pub fn name(&self) -> (r: &'static str)
        ensures
            r@ == self.spec_name(),
    {
        match self {
            KemAlgorithm::BikeL3 => "BIKE-L3",
            KemAlgorithm::BikeL5 => "BIKE-L5",
            KemAlgorithm::ClassicMcEliece348864 => "Classic-McEliece-348864",
            KemAlgorithm::ClassicMcEliece348864f => "Classic-McEliece-348864f",
            KemAlgorithm::ClassicMcEliece460896 => "Classic-McEliece-460896",
            KemAlgorithm::ClassicMcEliece460896f => "Classic-McEliece-460896f",
            KemAlgorithm::ClassicMcEliece6688128 => "Classic-McEliece-6688128",
            KemAlgorithm::ClassicMcEliece6688128f => "Classic-McEliece-6688128f",
            KemAlgorithm::ClassicMcEliece6960119 => "Classic-McEliece-6960119",
            KemAlgorithm::ClassicMcEliece6960119f => "Classic-McEliece-6960119f",
            KemAlgorithm::ClassicMcEliece8192128 => "Classic-McEliece-8192128",
            KemAlgorithm::ClassicMcEliece8192128f => "Classic-McEliece-8192128f",
            KemAlgorithm::Hqc128 => "HQC-128",
            KemAlgorithm::Hqc192 => "HQC-192",
            KemAlgorithm::Hqc256 => "HQC-256",
            KemAlgorithm::Kyber512 => "Kyber512",
            KemAlgorithm::Kyber768 => "Kyber768",
            KemAlgorithm::Kyber1024 => "Kyber1024",
            KemAlgorithm::MlKem512 => "ML-KEM-512",
            KemAlgorithm::MlKem768 => "ML-KEM-768",
            KemAlgorithm::MlKem1024 => "ML-KEM-1024",
            KemAlgorithm::NtruPrimeSntrup761 => "sntrup761",
            KemAlgorithm::FrodoKem640Aes => "FrodoKEM-640-AES",
            KemAlgorithm::FrodoKem640Shake => "FrodoKEM-640-SHAKE",
            KemAlgorithm::FrodoKem976Aes => "FrodoKEM-976-AES",
            KemAlgorithm::FrodoKem976Shake => "FrodoKEM-976-SHAKE",
            KemAlgorithm::FrodoKem1344Aes => "FrodoKEM-1344-AES",
            KemAlgorithm::FrodoKem1344Shake => "FrodoKEM-1344-SHAKE",
            KemAlgorithm::BikeL1 => "BIKE-L1",
        }
    }
}

/// Distinct algorithms of the family have distinct names, so a name resolves to at
/// most one algorithm.
pub proof fn lemma_kem_names_distinct(a: KemAlgorithm, b: KemAlgorithm)
    ensures
        a.spec_name() == b.spec_name() ==> a == b,
{
    reveal_strlit("BIKE-L3");
    reveal_strlit("BIKE-L5");
    reveal_strlit("Classic-McEliece-348864");
    reveal_strlit("Classic-McEliece-348864f");
    reveal_strlit("Classic-McEliece-460896");
    reveal_strlit("Classic-McEliece-460896f");
    reveal_strlit("Classic-McEliece-6688128");
    reveal_strlit("Classic-McEliece-6688128f");
    reveal_strlit("Classic-McEliece-6960119");
    reveal_strlit("Classic-McEliece-6960119f");
    reveal_strlit("Classic-McEliece-8192128");
    reveal_strlit("Classic-McEliece-8192128f");
    reveal_strlit("HQC-128");
    reveal_strlit("HQC-192");
    reveal_strlit("HQC-256");
    reveal_strlit("Kyber512");
    reveal_strlit("Kyber768");
    reveal_strlit("Kyber1024");
    reveal_strlit("ML-KEM-512");
    reveal_strlit("ML-KEM-768");
    reveal_strlit("ML-KEM-1024");
    reveal_strlit("sntrup761");
    reveal_strlit("FrodoKEM-640-AES");
    reveal_strlit("FrodoKEM-640-SHAKE");
    reveal_strlit("FrodoKEM-976-AES");
    reveal_strlit("FrodoKEM-976-SHAKE");
    reveal_strlit("FrodoKEM-1344-AES");
    reveal_strlit("FrodoKEM-1344-SHAKE");
    reveal_strlit("BIKE-L1");
    // Names of different lengths differ; names of one length differ at one of the
    // positions below.
    let x = a.spec_name();
    let y = b.spec_name();
    if x == y {
        assert(x.len() == y.len());
        assert(x[6] == y[6]);
        assert(x[9] == y[9]);
        assert(x[17] == y[17]);
        assert(x[18] == y[18]);
    }
}

/// The key encapsulation mechanism whose canonical name is exactly `alg`; fails
/// with `UnsupportedAlgorithm` where no name matches. Names are case-sensitive.
pub fn convert_str_to_kem_alg(alg: &str) -> (r: Result<KemAlgorithm, RustSealError>)
    ensures
        r matches Ok(a) ==> a.spec_name() == alg@,
        r is Err ==> forall|a: KemAlgorithm| a.spec_name() != alg@,
        r matches Err(e) ==> e == RustSealError::UnsupportedAlgorithm,
{
    if name_is(alg, "BIKE-L3") {
        return Ok(KemAlgorithm::BikeL3);
    }
    if name_is(alg, "BIKE-L5") {
        return Ok(KemAlgorithm::BikeL5);
    }
    if name_is(alg, "Classic-McEliece-348864") {
        return Ok(KemAlgorithm::ClassicMcEliece348864);
    }
    if name_is(alg, "Classic-McEliece-348864f") {
        return Ok(KemAlgorithm::ClassicMcEliece348864f);
    }
    if name_is(alg, "Classic-McEliece-460896") {
        return Ok(KemAlgorithm::ClassicMcEliece460896);
    }
    if name_is(alg, "Classic-McEliece-460896f") {
        return Ok(KemAlgorithm::ClassicMcEliece460896f);
    }
    if name_is(alg, "Classic-McEliece-6688128") {
        return Ok(KemAlgorithm::ClassicMcEliece6688128);
    }
    if name_is(alg, "Classic-McEliece-6688128f") {
        return Ok(KemAlgorithm::ClassicMcEliece6688128f);
    }
    if name_is(alg, "Classic-McEliece-6960119") {
        return Ok(KemAlgorithm::ClassicMcEliece6960119);
    }
    if name_is(alg, "Classic-McEliece-6960119f") {
        return Ok(KemAlgorithm::ClassicMcEliece6960119f);
    }
    if name_is(alg, "Classic-McEliece-8192128") {
        return Ok(KemAlgorithm::ClassicMcEliece8192128);
    }
    if name_is(alg, "Classic-McEliece-8192128f") {
        return Ok(KemAlgorithm::ClassicMcEliece8192128f);
    }
    if name_is(alg, "HQC-128") {
        return Ok(KemAlgorithm::Hqc128);
    }
    if name_is(alg, "HQC-192") {
        return Ok(KemAlgorithm::Hqc192);
    }
    if name_is(alg, "HQC-256") {
        return Ok(KemAlgorithm::Hqc256);
    }
    if name_is(alg, "Kyber512") {
        return Ok(KemAlgorithm::Kyber512);
    }
    if name_is(alg, "Kyber768") {
        return Ok(KemAlgorithm::Kyber768);
    }
    if name_is(alg, "Kyber1024") {
        return Ok(KemAlgorithm::Kyber1024);
    }
    if name_is(alg, "ML-KEM-512") {
        return Ok(KemAlgorithm::MlKem512);
    }
    if name_is(alg, "ML-KEM-768") {
        return Ok(KemAlgorithm::MlKem768);
    }
    if name_is(alg, "ML-KEM-1024") {
        return Ok(KemAlgorithm::MlKem1024);
    }
    if name_is(alg, "sntrup761") {
        return Ok(KemAlgorithm::NtruPrimeSntrup761);
    }
    if name_is(alg, "FrodoKEM-640-AES") {
        return Ok(KemAlgorithm::FrodoKem640Aes);
    }
    if name_is(alg, "FrodoKEM-640-SHAKE") {
        return Ok(KemAlgorithm::FrodoKem640Shake);
    }
    if name_is(alg, "FrodoKEM-976-AES") {
        return Ok(KemAlgorithm::FrodoKem976Aes);
    }
    if name_is(alg, "FrodoKEM-976-SHAKE") {
        return Ok(KemAlgorithm::FrodoKem976Shake);
    }
    if name_is(alg, "FrodoKEM-1344-AES") {
        return Ok(KemAlgorithm::FrodoKem1344Aes);
    }
    if name_is(alg, "FrodoKEM-1344-SHAKE") {
        return Ok(KemAlgorithm::FrodoKem1344Shake);
    }
    if name_is(alg, "BIKE-L1") {
        return Ok(KemAlgorithm::BikeL1);
    }
    Err(RustSealError::UnsupportedAlgorithm)
}

/// A signature scheme of the catalog.
#[derive(Debug, Clone, Copy, PartialEq, Eq, Structural)]
pub enum SigAlgorithm {
    CrossRsdp128Balanced,
    CrossRsdp128Fast,
    CrossRsdp128Small,
    CrossRsdp192Balanced,
    CrossRsdp192Fast,
    CrossRsdp192Small,
    CrossRsdp256Balanced,
    CrossRsdp256Fast,
    CrossRsdp256Small,
    CrossRsdpg128Balanced,
    CrossRsdpg128Fast,
    CrossRsdpg128Small,
    CrossRsdpg192Balanced,
    CrossRsdpg192Fast,
    CrossRsdpg192Small,
    CrossRsdpg256Balanced,
    CrossRsdpg256Fast,
    CrossRsdpg256Small,
    Dilithium2,
    Dilithium3,
    Dilithium5,
    Falcon512,
    Falcon1024,
    Mayo1,
    Mayo2,
    Mayo3,
    Mayo5,
    MlDsa44,
    MlDsa65,
    MlDsa87,
    SphincsSha2128fSimple,
    SphincsSha2128sSimple,
    SphincsSha2192fSimple,
    SphincsSha2192sSimple,
    SphincsSha2256fSimple,
    SphincsSha2256sSimple,
    SphincsShake128fSimple,
    SphincsShake128sSimple,
    SphincsShake192fSimple,
    SphincsShake192sSimple,
    SphincsShake256fSimple,
    SphincsShake256sSimple,
    UovOvIs,
    UovOvIp,
    UovOvIII,
    UovOvV,
    UovOvIsPkc,
    UovOvIpPkc,
    UovOvIIIPkc,
    UovOvVPkc,
    UovOvIsPkcSkc,
    UovOvIpPkcSkc,
    UovOvIIIPkcSkc,
    UovOvVPkcSkc,
}

impl SigAlgorithm {
    /// The canonical name of the algorithm.
    pub open spec fn spec_name(self) -> Seq<char> {
        match self {
            SigAlgorithm::CrossRsdp128Balanced => "cross-rsdp-128-balanced"@,
            SigAlgorithm::CrossRsdp128Fast => "cross-rsdp-128-fast"@,
            SigAlgorithm::CrossRsdp128Small => "cross-rsdp-128-small"@,
            SigAlgorithm::CrossRsdp192Balanced => "cross-rsdp-192-balanced"@,
            SigAlgorithm::CrossRsdp192Fast => "cross-rsdp-192-fast"@,
            SigAlgorithm::CrossRsdp192Small => "cross-rsdp-192-small"@,
            SigAlgorithm::CrossRsdp256Balanced => "cross-rsdp-256-balanced"@,
            SigAlgorithm::CrossRsdp256Fast => "cross-rsdp-256-fast"@,
            SigAlgorithm::CrossRsdp256Small => "cross-rsdp-256-small"@,
            SigAlgorithm::CrossRsdpg128Balanced => "cross-rsdpg-128-balanced"@,
            SigAlgorithm::CrossRsdpg128Fast => "cross-rsdpg-128-fast"@,
            SigAlgorithm::CrossRsdpg128Small => "cross-rsdpg-128-small"@,
            SigAlgorithm::CrossRsdpg192Balanced => "cross-rsdpg-192-balanced"@,
            SigAlgorithm::CrossRsdpg192Fast => "cross-rsdpg-192-fast"@,
            SigAlgorithm::CrossRsdpg192Small => "cross-rsdpg-192-small"@,
            SigAlgorithm::CrossRsdpg256Balanced => "cross-rsdpg-256-balanced"@,
            SigAlgorithm::CrossRsdpg256Fast => "cross-rsdpg-256-fast"@,
            SigAlgorithm::CrossRsdpg256Small => "cross-rsdpg-256-small"@,
            SigAlgorithm::Dilithium2 => "Dilithium2"@,
            SigAlgorithm::Dilithium3 => "Dilithium3"@,
            SigAlgorithm::Dilithium5 => "Dilithium5"@,
            SigAlgorithm::Falcon512 => "Falcon-512"@,
            SigAlgorithm::Falcon1024 => "Falcon-1024"@,
            SigAlgorithm::Mayo1 => "MAYO-1"@,
            SigAlgorithm::Mayo2 => "MAYO-2"@,
            SigAlgorithm::Mayo3 => "MAYO-3"@,
            SigAlgorithm::Mayo5 => "MAYO-5"@,
            SigAlgorithm::MlDsa44 => "ML-DSA-44"@,
            SigAlgorithm::MlDsa65 => "ML-DSA-65"@,
            SigAlgorithm::MlDsa87 => "ML-DSA-87"@,
            SigAlgorithm::SphincsSha2128fSimple => "SPHINCS+-SHA2-128f-simple"@,
            SigAlgorithm::SphincsSha2128sSimple => "SPHINCS+-SHA2-128s-simple"@,
            SigAlgorithm::SphincsSha2192fSimple => "SPHINCS+-SHA2-192f-simple"@,
            SigAlgorithm::SphincsSha2192sSimple => "SPHINCS+-SHA2-192s-simple"@,
            SigAlgorithm::SphincsSha2256fSimple => "SPHINCS+-SHA2-256f-simple"@,
            SigAlgorithm::SphincsSha2256sSimple => "SPHINCS+-SHA2-256s-simple"@,
            SigAlgorithm::SphincsShake128fSimple => "SPHINCS+-SHAKE-128f-simple"@,
            SigAlgorithm::SphincsShake128sSimple => "SPHINCS+-SHAKE-128s-simple"@,
            SigAlgorithm::SphincsShake192fSimple => "SPHINCS+-SHAKE-192f-simple"@,
            SigAlgorithm::SphincsShake192sSimple => "SPHINCS+-SHAKE-192s-simple"@,
            SigAlgorithm::SphincsShake256fSimple => "SPHINCS+-SHAKE-256f-simple"@,
            SigAlgorithm::SphincsShake256sSimple => "SPHINCS+-SHAKE-256s-simple"@,
            SigAlgorithm::UovOvIs => "OV-Is"@,
            SigAlgorithm::UovOvIp => "OV-Ip"@,
            SigAlgorithm::UovOvIII => "OV-III"@,
            SigAlgorithm::UovOvV => "OV-V"@,
            SigAlgorithm::UovOvIsPkc => "OV-Is-pkc"@,
            SigAlgorithm::UovOvIpPkc => "OV-Ip-pkc"@,
            SigAlgorithm::UovOvIIIPkc => "OV-III-pkc"@,
            SigAlgorithm::UovOvVPkc => "OV-V-pkc"@,
            SigAlgorithm::UovOvIsPkcSkc => "OV-Is-pkc-skc"@,
            SigAlgorithm::UovOvIpPkcSkc => "OV-Ip-pkc-skc"@,
            SigAlgorithm::UovOvIIIPkcSkc => "OV-III-pkc-skc"@,
            SigAlgorithm::UovOvVPkcSkc => "OV-V-pkc-skc"@,
        }
    }

    /// The canonical name of the algorithm.
    pub fn name(&self) -> (r: &'static str)
        ensures
            r@ == self.spec_name(),
    {
        match self {
            SigAlgorithm::CrossRsdp128Balanced => "cross-rsdp-128-balanced",
            SigAlgorithm::CrossRsdp128Fast => "cross-rsdp-128-fast",
            SigAlgorithm::CrossRsdp128Small => "cross-rsdp-128-small",
            SigAlgorithm::CrossRsdp192Balanced => "cross-rsdp-192-balanced",
            SigAlgorithm::CrossRsdp192Fast => "cross-rsdp-192-fast",
            SigAlgorithm::CrossRsdp192Small => "cross-rsdp-192-small",
            SigAlgorithm::CrossRsdp256Balanced => "cross-rsdp-256-balanced",
            SigAlgorithm::CrossRsdp256Fast => "cross-rsdp-256-fast",
            SigAlgorithm::CrossRsdp256Small => "cross-rsdp-256-small",
            SigAlgorithm::CrossRsdpg128Balanced => "cross-rsdpg-128-balanced",
            SigAlgorithm::CrossRsdpg128Fast => "cross-rsdpg-128-fast",
            SigAlgorithm::CrossRsdpg128Small => "cross-rsdpg-128-small",
            SigAlgorithm::CrossRsdpg192Balanced => "cross-rsdpg-192-balanced",
            SigAlgorithm::CrossRsdpg192Fast => "cross-rsdpg-192-fast",
            SigAlgorithm::CrossRsdpg192Small => "cross-rsdpg-192-small",
            SigAlgorithm::CrossRsdpg256Balanced => "cross-rsdpg-256-balanced",
            SigAlgorithm::CrossRsdpg256Fast => "cross-rsdpg-256-fast",
            SigAlgorithm::CrossRsdpg256Small => "cross-rsdpg-256-small",
            SigAlgorithm::Dilithium2 => "Dilithium2",
            SigAlgorithm::Dilithium3 => "Dilithium3",
            SigAlgorithm::Dilithium5 => "Dilithium5",
            SigAlgorithm::Falcon512 => "Falcon-512",
            SigAlgorithm::Falcon1024 => "Falcon-1024",
            SigAlgorithm::Mayo1 => "MAYO-1",
            SigAlgorithm::Mayo2 => "MAYO-2",
            SigAlgorithm::Mayo3 => "MAYO-3",
            SigAlgorithm::Mayo5 => "MAYO-5",
            SigAlgorithm::MlDsa44 => "ML-DSA-44",
            SigAlgorithm::MlDsa65 => "ML-DSA-65",
            SigAlgorithm::MlDsa87 => "ML-DSA-87",
            SigAlgorithm::SphincsSha2128fSimple => "SPHINCS+-SHA2-128f-simple",
            SigAlgorithm::SphincsSha2128sSimple => "SPHINCS+-SHA2-128s-simple",
            SigAlgorithm::SphincsSha2192fSimple => "SPHINCS+-SHA2-192f-simple",
            SigAlgorithm::SphincsSha2192sSimple => "SPHINCS+-SHA2-192s-simple",
            SigAlgorithm::SphincsSha2256fSimple => "SPHINCS+-SHA2-256f-simple",
            SigAlgorithm::SphincsSha2256sSimple => "SPHINCS+-SHA2-256s-simple",
            SigAlgorithm::SphincsShake128fSimple => "SPHINCS+-SHAKE-128f-simple",
            SigAlgorithm::SphincsShake128sSimple => "SPHINCS+-SHAKE-128s-simple",
            SigAlgorithm::SphincsShake192fSimple => "SPHINCS+-SHAKE-192f-simple",
            SigAlgorithm::SphincsShake192sSimple => "SPHINCS+-SHAKE-192s-simple",
            SigAlgorithm::SphincsShake256fSimple => "SPHINCS+-SHAKE-256f-simple",
            SigAlgorithm::SphincsShake256sSimple => "SPHINCS+-SHAKE-256s-simple",
            SigAlgorithm::UovOvIs => "OV-Is",
            SigAlgorithm::UovOvIp => "OV-Ip",
            SigAlgorithm::UovOvIII => "OV-III",
            SigAlgorithm::UovOvV => "OV-V",
            SigAlgorithm::UovOvIsPkc => "OV-Is-pkc",
            SigAlgorithm::UovOvIpPkc => "OV-Ip-pkc",
            SigAlgorithm::UovOvIIIPkc => "OV-III-pkc",
            SigAlgorithm::UovOvVPkc => "OV-V-pkc",
            SigAlgorithm::UovOvIsPkcSkc => "OV-Is-pkc-skc",
            SigAlgorithm::UovOvIpPkcSkc => "OV-Ip-pkc-skc",
            SigAlgorithm::UovOvIIIPkcSkc => "OV-III-pkc-skc",
            SigAlgorithm::UovOvVPkcSkc => "OV-V-pkc-skc",
        }
    }
}

/// Distinct algorithms of the family have distinct names, so a name resolves to at
/// most one algorithm.
pub proof fn lemma_sig_names_distinct(a: SigAlgorithm, b: SigAlgorithm)
    ensures
        a.spec_name() == b.spec_name() ==> a == b,
{
    reveal_strlit("cross-rsdp-128-balanced");
    reveal_strlit("cross-rsdp-128-fast");
    reveal_strlit("cross-rsdp-128-small");
    reveal_strlit("cross-rsdp-192-balanced");
    reveal_strlit("cross-rsdp-192-fast");
    reveal_strlit("cross-rsdp-192-small");
    reveal_strlit("cross-rsdp-256-balanced");
    reveal_strlit("cross-rsdp-256-fast");
    reveal_strlit("cross-rsdp-256-small");
    reveal_strlit("cross-rsdpg-128-balanced");
    reveal_strlit("cross-rsdpg-128-fast");
    reveal_strlit("cross-rsdpg-128-small");
    reveal_strlit("cross-rsdpg-192-balanced");
    reveal_strlit("cross-rsdpg-192-fast");
    reveal_strlit("cross-rsdpg-192-small");
    reveal_strlit("cross-rsdpg-256-balanced");
    reveal_strlit("cross-rsdpg-256-fast");
    reveal_strlit("cross-rsdpg-256-small");
    reveal_strlit("Dilithium2");
    reveal_strlit("Dilithium3");
    reveal_strlit("Dilithium5");
    reveal_strlit("Falcon-512");
    reveal_strlit("Falcon-1024");
    reveal_strlit("MAYO-1");
    reveal_strlit("MAYO-2");
    reveal_strlit("MAYO-3");
    reveal_strlit("MAYO-5");
    reveal_strlit("ML-DSA-44");
    reveal_strlit("ML-DSA-65");
    reveal_strlit("ML-DSA-87");
    reveal_strlit("SPHINCS+-SHA2-128f-simple");
    reveal_strlit("SPHINCS+-SHA2-128s-simple");
    reveal_strlit("SPHINCS+-SHA2-192f-simple");
    reveal_strlit("SPHINCS+-SHA2-192s-simple");
    reveal_strlit("SPHINCS+-SHA2-256f-simple");
    reveal_strlit("SPHINCS+-SHA2-256s-simple");
    reveal_strlit("SPHINCS+-SHAKE-128f-simple");
    reveal_strlit("SPHINCS+-SHAKE-128s-simple");
    reveal_strlit("SPHINCS+-SHAKE-192f-simple");
    reveal_strlit("SPHINCS+-SHAKE-192s-simple");
    reveal_strlit("SPHINCS+-SHAKE-256f-simple");
    reveal_strlit("SPHINCS+-SHAKE-256s-simple");
    reveal_strlit("OV-Is");
    reveal_strlit("OV-Ip");
    reveal_strlit("OV-III");
    reveal_strlit("OV-V");
    reveal_strlit("OV-Is-pkc");
    reveal_strlit("OV-Ip-pkc");
    reveal_strlit("OV-III-pkc");
    reveal_strlit("OV-V-pkc");
    reveal_strlit("OV-Is-pkc-skc");
    reveal_strlit("OV-Ip-pkc-skc");
    reveal_strlit("OV-III-pkc-skc");
    reveal_strlit("OV-V-pkc-skc");
    // Names of different lengths differ; names of one length differ at one of the
    // positions below.
    let x = a.spec_name();
    let y = b.spec_name();
    if x == y {
        assert(x.len() == y.len());
        assert(x[4] == y[4]);
        assert(x[5] == y[5]);
        assert(x[7] == y[7]);
        assert(x[9] == y[9]);
        assert(x[13] == y[13]);
        assert(x[16] == y[16]);
        assert(x[17] == y[17]);
        assert(x[18] == y[18]);
    }
}

/// The signature scheme whose canonical name is exactly `alg`; fails with
/// `UnsupportedAlgorithm` where no name matches. Names are case-sensitive.
pub fn convert_str_to_sig_alg(alg: &str) -> (r: Result<SigAlgorithm, RustSealError>)
    ensures
        r matches Ok(a) ==> a.spec_name() == alg@,
        r is Err ==> forall|a: SigAlgorithm| a.spec_name() != alg@,
        r matches Err(e) ==> e == RustSealError::UnsupportedAlgorithm,
{
    if name_is(alg, "cross-rsdp-128-balanced") {
        return Ok(SigAlgorithm::CrossRsdp128Balanced);
    }
    if name_is(alg, "cross-rsdp-128-fast") {
        return Ok(SigAlgorithm::CrossRsdp128Fast);
    }
    if name_is(alg, "cross-rsdp-128-small") {
        return Ok(SigAlgorithm::CrossRsdp128Small);
    }
    if name_is(alg, "cross-rsdp-192-balanced") {
        return Ok(SigAlgorithm::CrossRsdp192Balanced);
    }
    if name_is(alg, "cross-rsdp-192-fast") {
        return Ok(SigAlgorithm::CrossRsdp192Fast);
    }
    if name_is(alg, "cross-rsdp-192-small") {
        return Ok(SigAlgorithm::CrossRsdp192Small);
    }
    if name_is(alg, "cross-rsdp-256-balanced") {
        return Ok(SigAlgorithm::CrossRsdp256Balanced);
    }
    if name_is(alg, "cross-rsdp-256-fast") {
        return Ok(SigAlgorithm::CrossRsdp256Fast);
    }
    if name_is(alg, "cross-rsdp-256-small") {
        return Ok(SigAlgorithm::CrossRsdp256Small);
    }
    if name_is(alg, "cross-rsdpg-128-balanced") {
        return Ok(SigAlgorithm::CrossRsdpg128Balanced);
    }
    if name_is(alg, "cross-rsdpg-128-fast") {
        return Ok(SigAlgorithm::CrossRsdpg128Fast);
    }
    if name_is(alg, "cross-rsdpg-128-small") {
        return Ok(SigAlgorithm::CrossRsdpg128Small);
    }
    if name_is(alg, "cross-rsdpg-192-balanced") {
        return Ok(SigAlgorithm::CrossRsdpg192Balanced);
    }
    if name_is(alg, "cross-rsdpg-192-fast") {
        return Ok(SigAlgorithm::CrossRsdpg192Fast);
    }
    if name_is(alg, "cross-rsdpg-192-small") {
        return Ok(SigAlgorithm::CrossRsdpg192Small);
    }
    if name_is(alg, "cross-rsdpg-256-balanced") {
        return Ok(SigAlgorithm::CrossRsdpg256Balanced);
    }
    if name_is(alg, "cross-rsdpg-256-fast") {
        return Ok(SigAlgorithm::CrossRsdpg256Fast);
    }
    if name_is(alg, "cross-rsdpg-256-small") {
        return Ok(SigAlgorithm::CrossRsdpg256Small);
    }
    if name_is(alg, "Dilithium2") {
        return Ok(SigAlgorithm::Dilithium2);
    }
    if name_is(alg, "Dilithium3") {
        return Ok(SigAlgorithm::Dilithium3);
    }
    if name_is(alg, "Dilithium5") {
        return Ok(SigAlgorithm::Dilithium5);
    }
    if name_is(alg, "Falcon-512") {
        return Ok(SigAlgorithm::Falcon512);
    }
    if name_is(alg, "Falcon-1024") {
        return Ok(SigAlgorithm::Falcon1024);
    }
    if name_is(alg, "MAYO-1") {
        return Ok(SigAlgorithm::Mayo1);
    }
    if name_is(alg, "MAYO-2") {
        return Ok(SigAlgorithm::Mayo2);
    }
    if name_is(alg, "MAYO-3") {
        return Ok(SigAlgorithm::Mayo3);
    }
    if name_is(alg, "MAYO-5") {
        return Ok(SigAlgorithm::Mayo5);
    }
    if name_is(alg, "ML-DSA-44") {
        return Ok(SigAlgorithm::MlDsa44);
    }
    if name_is(alg, "ML-DSA-65") {
        return Ok(SigAlgorithm::MlDsa65);
    }
    if name_is(alg, "ML-DSA-87") {
        return Ok(SigAlgorithm::MlDsa87);
    }
    if name_is(alg, "SPHINCS+-SHA2-128f-simple") {
        return Ok(SigAlgorithm::SphincsSha2128fSimple);
    }
    if name_is(alg, "SPHINCS+-SHA2-128s-simple") {
        return Ok(SigAlgorithm::SphincsSha2128sSimple);
    }
    if name_is(alg, "SPHINCS+-SHA2-192f-simple") {
        return Ok(SigAlgorithm::SphincsSha2192fSimple);
    }
    if name_is(alg, "SPHINCS+-SHA2-192s-simple") {
        return Ok(SigAlgorithm::SphincsSha2192sSimple);
    }
    if name_is(alg, "SPHINCS+-SHA2-256f-simple") {
        return Ok(SigAlgorithm::SphincsSha2256fSimple);
    }
    if name_is(alg, "SPHINCS+-SHA2-256s-simple") {
        return Ok(SigAlgorithm::SphincsSha2256sSimple);
    }
    if name_is(alg, "SPHINCS+-SHAKE-128f-simple") {
        return Ok(SigAlgorithm::SphincsShake128fSimple);
    }
    if name_is(alg, "SPHINCS+-SHAKE-128s-simple") {
        return Ok(SigAlgorithm::SphincsShake128sSimple);
    }
    if name_is(alg, "SPHINCS+-SHAKE-192f-simple") {
        return Ok(SigAlgorithm::SphincsShake192fSimple);
    }
    if name_is(alg, "SPHINCS+-SHAKE-192s-simple") {
        return Ok(SigAlgorithm::SphincsShake192sSimple);
    }
    if name_is(alg, "SPHINCS+-SHAKE-256f-simple") {
        return Ok(SigAlgorithm::SphincsShake256fSimple);
    }
    if name_is(alg, "SPHINCS+-SHAKE-256s-simple") {
        return Ok(SigAlgorithm::SphincsShake256sSimple);
    }
    if name_is(alg, "OV-Is") {
        return Ok(SigAlgorithm::UovOvIs);
    }
    if name_is(alg, "OV-Ip") {
        return Ok(SigAlgorithm::UovOvIp);
    }
    if name_is(alg, "OV-III") {
        return Ok(SigAlgorithm::UovOvIII);
    }
    if name_is(alg, "OV-V") {
        return Ok(SigAlgorithm::UovOvV);
    }
    if name_is(alg, "OV-Is-pkc") {
        return Ok(SigAlgorithm::UovOvIsPkc);
    }
    if name_is(alg, "OV-Ip-pkc") {
        return Ok(SigAlgorithm::UovOvIpPkc);
    }
    if name_is(alg, "OV-III-pkc") {
        return Ok(SigAlgorithm::UovOvIIIPkc);
    }
    if name_is(alg, "OV-V-pkc") {
        return Ok(SigAlgorithm::UovOvVPkc);
    }
    if name_is(alg, "OV-Is-pkc-skc") {
        return Ok(SigAlgorithm::UovOvIsPkcSkc);
    }
    if name_is(alg, "OV-Ip-pkc-skc") {
        return Ok(SigAlgorithm::UovOvIpPkcSkc);
    }
    if name_is(alg, "OV-III-pkc-skc") {
        return Ok(SigAlgorithm::UovOvIIIPkcSkc);
    }
    if name_is(alg, "OV-V-pkc-skc") {
        return Ok(SigAlgorithm::UovOvVPkcSkc);
    }
    Err(RustSealError::UnsupportedAlgorithm)
}

} // verus!
