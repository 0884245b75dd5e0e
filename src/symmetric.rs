use vstd::prelude::*;
use vstd::slice::slice_subrange;

use aes_gcm::aead::generic_array::GenericArray;
use aes_gcm::aead::{Aead, OsRng};
use aes_gcm::{AeadCore, Aes256Gcm, KeyInit};

use crate::error::RustSealError;
use crate::framing::{
    combine_data_and_nonce, extract_data_and_nonce, frame_decode, frame_encode,
    lemma_frame_round_trip,
};

verus! {

/// Length of an AES-256 key.
pub const AES_KEY_SIZE: usize = 32;

/// Length of an AES-GCM nonce.
pub const AES_NONCE_SIZE: usize = 12;

/// Length of the tag that AES-GCM appends to a ciphertext.
pub const AES_TAG_SIZE: usize = 16;

/// The longest plaintext that AES-GCM encrypts: 2^36 bytes.
pub const AES_GCM_MAX_PLAINTEXT: u64 = 0x10_0000_0000;

#[verifier::external_type_specification]
#[verifier::external_body]
pub struct ExAeadError(aes_gcm::Error);

/// The AES-256-GCM encryption of `plaintext` under `key` and `nonce`, without
/// associated data: the ciphertext followed by its tag.
pub uninterp spec fn aes_gcm_seal(key: Seq<u8>, nonce: Seq<u8>, plaintext: Seq<u8>) -> Seq<u8>;

/// Relies on `AeadCore::generate_nonce` for `Aes256Gcm`, drawn from `OsRng`: a fresh
/// random nonce of 12 bytes. It panics only where the operating system yields no
/// randomness.
#[verifier::external_body]
fn generate_nonce() -> (r: Vec<u8>)
    ensures
        r@.len() == AES_NONCE_SIZE,
{
    Aes256Gcm::generate_nonce(&mut OsRng).to_vec()
}

/// Relies on `Aead::encrypt` of `Aes256Gcm`, with no associated data: it fails exactly
/// where the plaintext is longer than `P_MAX` (2^36 bytes), and otherwise returns the
/// AES-GCM ciphertext followed by its 16-byte tag.
#[verifier::external_body]
fn aes_gcm_encrypt(key: &[u8], nonce: &[u8], plaintext: &[u8]) -> (r: Result<
    Vec<u8>,
    aes_gcm::Error,
>)
    requires
        key@.len() == AES_KEY_SIZE,
        nonce@.len() == AES_NONCE_SIZE,
    ensures
        r is Ok <==> plaintext@.len() <= AES_GCM_MAX_PLAINTEXT,
        r matches Ok(c) ==> c@ == aes_gcm_seal(key@, nonce@, plaintext@),
        r matches Ok(c) ==> c@.len() == plaintext@.len() + AES_TAG_SIZE,
{
    let cipher = Aes256Gcm::new(GenericArray::from_slice(key));
    cipher.encrypt(GenericArray::from_slice(nonce), plaintext)
}

/// Relies on `Aead::decrypt` of `Aes256Gcm`, with no associated data: it accepts a
/// ciphertext only where its tag is the one AES-GCM computes, and then returns the
/// plaintext that encrypts to it; every encryption of a plaintext of at most `P_MAX`
/// bytes is accepted.
#[verifier::external_body]
fn aes_gcm_decrypt(key: &[u8], nonce: &[u8], ciphertext: &[u8]) -> (r: Result<
    Vec<u8>,
    aes_gcm::Error,
>)
    requires
        key@.len() == AES_KEY_SIZE,
        nonce@.len() == AES_NONCE_SIZE,
    ensures
        r matches Ok(p) ==> aes_gcm_seal(key@, nonce@, p@) == ciphertext@,
        forall|p: Seq<u8>|
            p.len() <= AES_GCM_MAX_PLAINTEXT && #[trigger] aes_gcm_seal(key@, nonce@, p)
                == ciphertext@ ==> r is Ok && r->Ok_0@ == p,
{
    let cipher = Aes256Gcm::new(GenericArray::from_slice(key));
    cipher.decrypt(GenericArray::from_slice(nonce), ciphertext)
}

/// The frame that encrypting `plaintext` under `key` with `nonce` produces.
pub open spec fn sealed_frame(key: Seq<u8>, nonce: Seq<u8>, plaintext: Seq<u8>) -> Seq<u8> {
    frame_encode(nonce, aes_gcm_seal(key, nonce, plaintext))
}

/// `frame` is an encryption of `plaintext` under `key`, with the nonce it carries.
pub open spec fn opens_to(key: Seq<u8>, frame: Seq<u8>, plaintext: Seq<u8>) -> bool {
    match frame_decode(frame) {
        Some((nonce, ciphertext)) => nonce.len() == AES_NONCE_SIZE && aes_gcm_seal(
            key,
            nonce,
            plaintext,
        ) == ciphertext,
        None => false,
    }
}

/// A frame sealed under a key and a nonce opens, under the same key, to the plaintext
/// that was sealed.
pub proof fn lemma_sealed_frame_opens(key: Seq<u8>, nonce: Seq<u8>, plaintext: Seq<u8>)
    requires
        nonce.len() == AES_NONCE_SIZE,
    ensures
        opens_to(key, sealed_frame(key, nonce, plaintext), plaintext),
{
    lemma_frame_round_trip(nonce, aes_gcm_seal(key, nonce, plaintext));
}

/// Encrypts `data` under `key` with the given `nonce`, and frames the ciphertext with
/// the nonce.
pub fn symmetric_encrypt_with_nonce(data: &[u8], key: &[u8], nonce: &[u8]) -> (r: Result<
    Vec<u8>,
    RustSealError,
>)
    requires
        key@.len() == AES_KEY_SIZE,
        nonce@.len() == AES_NONCE_SIZE,
    ensures
        data@.len() <= AES_GCM_MAX_PLAINTEXT ==> (r matches Ok(f) && f@ == sealed_frame(
            key@,
            nonce@,
            data@,
        )),
        data@.len() > AES_GCM_MAX_PLAINTEXT ==> r == Err::<Vec<u8>, RustSealError>(
            RustSealError::PlaintextTooLong,
        ),
{
    match aes_gcm_encrypt(key, nonce, data) {
        Ok(ciphertext) => combine_data_and_nonce(ciphertext.as_slice(), nonce),
        Err(_) => Err(RustSealError::PlaintextTooLong),
    }
}

/// Encrypts `data` under `key` with a fresh random nonce; the result is the frame
/// `[nonce length][nonce][ciphertext and tag]`.
pub fn symmetric_encrypt(data: &[u8], key: &[u8]) -> (r: Result<Vec<u8>, RustSealError>)
    requires
        key@.len() == AES_KEY_SIZE,
    ensures
        data@.len() <= AES_GCM_MAX_PLAINTEXT ==> (r matches Ok(f) && exists|nonce: Seq<u8>|
            nonce.len() == AES_NONCE_SIZE && f@ == #[trigger] sealed_frame(key@, nonce, data@)),
        data@.len() > AES_GCM_MAX_PLAINTEXT ==> r == Err::<Vec<u8>, RustSealError>(
            RustSealError::PlaintextTooLong,
        ),
{
    let nonce = generate_nonce();
    symmetric_encrypt_with_nonce(data, key, nonce.as_slice())
}

/// Decrypts a frame produced by `symmetric_encrypt` under `key`. Fails with
/// `FramingTooShort` where the frame cannot be split, and with `AuthenticationFailed`
/// where its nonce has the wrong length or its ciphertext is no encryption under `key`.
pub fn symmetric_decrypt(data: &[u8], key: &[u8]) -> (r: Result<Vec<u8>, RustSealError>)
    requires
        key@.len() == AES_KEY_SIZE,
    ensures
        r matches Ok(p) ==> opens_to(key@, data@, p@),
        forall|p: Seq<u8>|
            p.len() <= AES_GCM_MAX_PLAINTEXT && #[trigger] opens_to(key@, data@, p) ==> (r matches Ok(
                q,
            ) && q@ == p),
        r matches Err(e) ==> e == (if frame_decode(data@) is None {
            RustSealError::FramingTooShort
        } else {
            RustSealError::AuthenticationFailed
        }),
{
    let (nonce, ciphertext) = match extract_data_and_nonce(data) {
        Ok(parts) => parts,
        Err(e) => return Err(e),
    };
    if nonce.len() != AES_NONCE_SIZE {
        return Err(RustSealError::AuthenticationFailed);
    }
    match aes_gcm_decrypt(key, nonce, ciphertext) {
        Ok(plaintext) => Ok(plaintext),
        Err(_) => Err(RustSealError::AuthenticationFailed),
    }
}

} // verus!
