use vstd::prelude::*;

verus! {

/// Every way in which an operation of this library can fail.
#[derive(Debug, Clone, Copy, PartialEq, Eq, Structural)]
pub enum RustSealError {
    /// A name that matches no algorithm of the catalog.
    UnsupportedAlgorithm,
    /// A key pair for this algorithm is already recorded.
    AlreadyInitialized,
    /// No key pair is recorded for this algorithm.
    NotInitialized,
    /// The stored configuration cannot be read back as a valid configuration.
    ConfigCorrupt,
    /// A key file does not hold a valid key for its algorithm.
    KeyFileInvalid,
    /// An encapsulated key is malformed.
    InvalidCiphertext,
    /// A signature is malformed.
    InvalidSignatureEncoding,
    /// A public key is malformed.
    InvalidPublicKey,
    /// The key encapsulation mechanism could not encapsulate.
    EncapsulationFailed,
    /// The key encapsulation mechanism could not decapsulate.
    DecapsulationFailed,
    /// The signature scheme could not sign.
    SigningFailed,
    /// The shared secret is shorter than a symmetric key.
    SharedSecretTooShort,
    /// The authenticated decryption rejected the ciphertext.
    AuthenticationFailed,
    /// The signature does not match the message and the public key.
    VerificationFailed,
    /// A file could not be written.
    PersistenceError,
    /// A nonce longer than a single length byte can describe.
    NonceTooLong,
    /// A framed buffer that is shorter than its own length byte announces.
    FramingTooShort,
    /// A plaintext longer than the symmetric cipher accepts.
    PlaintextTooLong,
}

impl RustSealError {
    /// A short human-readable description of the error.
    pub fn message(&self) -> (r: &'static str)
        ensures
            r@ == self.spec_message(),
    {
        match self {
            RustSealError::UnsupportedAlgorithm => "unsupported algorithm",
            RustSealError::AlreadyInitialized => "algorithm already initialized",
            RustSealError::NotInitialized => "algorithm not initialized",
            RustSealError::ConfigCorrupt => "configuration is corrupt",
            RustSealError::KeyFileInvalid => "key file is not a valid key for its algorithm",
            RustSealError::InvalidCiphertext => "encapsulated key is not valid",
            RustSealError::InvalidSignatureEncoding => "signature is not valid",
            RustSealError::InvalidPublicKey => "public key is not valid",
            RustSealError::EncapsulationFailed => "key encapsulation failed",
            RustSealError::DecapsulationFailed => "key decapsulation failed",
            RustSealError::SigningFailed => "signing failed",
            RustSealError::SharedSecretTooShort => "shared secret is too short, use another KEM algorithm",
            RustSealError::AuthenticationFailed => "authenticated decryption failed",
            RustSealError::VerificationFailed => "signature verification failed",
            RustSealError::PersistenceError => "could not write file",
            RustSealError::NonceTooLong => "nonce is longer than 255 bytes",
            RustSealError::FramingTooShort => "framed ciphertext is too short",
            RustSealError::PlaintextTooLong => "plaintext is too long for the cipher",
        }
    }

    pub open spec fn spec_message(&self) -> Seq<char> {
        match self {
            RustSealError::UnsupportedAlgorithm => "unsupported algorithm"@,
            RustSealError::AlreadyInitialized => "algorithm already initialized"@,
            RustSealError::NotInitialized => "algorithm not initialized"@,
            RustSealError::ConfigCorrupt => "configuration is corrupt"@,
            RustSealError::KeyFileInvalid => "key file is not a valid key for its algorithm"@,
            RustSealError::InvalidCiphertext => "encapsulated key is not valid"@,
            RustSealError::InvalidSignatureEncoding => "signature is not valid"@,
            RustSealError::InvalidPublicKey => "public key is not valid"@,
            RustSealError::EncapsulationFailed => "key encapsulation failed"@,
            RustSealError::DecapsulationFailed => "key decapsulation failed"@,
            RustSealError::SigningFailed => "signing failed"@,
            RustSealError::SharedSecretTooShort => "shared secret is too short, use another KEM algorithm"@,
            RustSealError::AuthenticationFailed => "authenticated decryption failed"@,
            RustSealError::VerificationFailed => "signature verification failed"@,
            RustSealError::PersistenceError => "could not write file"@,
            RustSealError::NonceTooLong => "nonce is longer than 255 bytes"@,
            RustSealError::FramingTooShort => "framed ciphertext is too short"@,
            RustSealError::PlaintextTooLong => "plaintext is too long for the cipher"@,
        }
    }
}

} // verus!
