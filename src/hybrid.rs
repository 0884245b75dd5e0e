use vstd::prelude::*;
use vstd::slice::slice_subrange;

use crate::error::RustSealError;
use crate::framing::frame_decode;
use crate::symmetric::{
    lemma_sealed_frame_opens, opens_to, sealed_frame, symmetric_decrypt, symmetric_encrypt,
    AES_GCM_MAX_PLAINTEXT, AES_KEY_SIZE, AES_NONCE_SIZE,
};

verus! {

/// The symmetric key taken from a shared secret: its first `AES_KEY_SIZE` bytes.
pub open spec fn aead_key(shared_secret: Seq<u8>) -> Seq<u8> {
    shared_secret.subrange(0, AES_KEY_SIZE as int)
}

/// Encrypts a file's content with the shared secret that a key encapsulation
/// produced. Fails with `SharedSecretTooShort` where the secret is shorter than a
/// symmetric key; otherwise the frame holds the content sealed under the secret's
/// first 32 bytes with a fresh nonce.
pub fn encrypt_file(shared_secret: &[u8], file_content: &[u8]) -> (r: Result<
    Vec<u8>,
    RustSealError,
>)
    ensures
        shared_secret@.len() < AES_KEY_SIZE ==> r == Err::<Vec<u8>, RustSealError>(
            RustSealError::SharedSecretTooShort,
        ),
        shared_secret@.len() >= AES_KEY_SIZE && file_content@.len() <= AES_GCM_MAX_PLAINTEXT ==> (
        r matches Ok(f) && exists|nonce: Seq<u8>|
            nonce.len() == AES_NONCE_SIZE && f@ == #[trigger] sealed_frame(
                aead_key(shared_secret@),
                nonce,
                file_content@,
            )),
        shared_secret@.len() >= AES_KEY_SIZE && file_content@.len() > AES_GCM_MAX_PLAINTEXT
            ==> r == Err::<Vec<u8>, RustSealError>(RustSealError::PlaintextTooLong),
{
    if shared_secret.len() < AES_KEY_SIZE {
        return Err(RustSealError::SharedSecretTooShort);
    }
    let key = slice_subrange(shared_secret, 0, AES_KEY_SIZE);
    assert(key@ == aead_key(shared_secret@));
    symmetric_encrypt(file_content, key)
}

/// Decrypts a frame with the shared secret that a key decapsulation recovered.
/// Fails with `SharedSecretTooShort` where the secret is shorter than a symmetric
/// key, then as `symmetric_decrypt` does under the secret's first 32 bytes.
pub fn decrypt_file(shared_secret: &[u8], framed: &[u8]) -> (r: Result<Vec<u8>, RustSealError>)
    ensures
        shared_secret@.len() < AES_KEY_SIZE ==> r == Err::<Vec<u8>, RustSealError>(
            RustSealError::SharedSecretTooShort,
        ),
        shared_secret@.len() >= AES_KEY_SIZE ==> {
            &&& r matches Ok(p) ==> opens_to(aead_key(shared_secret@), framed@, p@)
            &&& forall|p: Seq<u8>|
                p.len() <= AES_GCM_MAX_PLAINTEXT && #[trigger] opens_to(
                    aead_key(shared_secret@),
                    framed@,
                    p,
                ) ==> r is Ok && r->Ok_0@ == p
            &&& r matches Err(e) ==> e == (if frame_decode(framed@) is None {
                RustSealError::FramingTooShort
            } else {
                RustSealError::AuthenticationFailed
            })
        },
{
    if shared_secret.len() < AES_KEY_SIZE {
        return Err(RustSealError::SharedSecretTooShort);
    }
    let key = slice_subrange(shared_secret, 0, AES_KEY_SIZE);
    symmetric_decrypt(framed, key)
}

/// Decrypting what was encrypted with the same shared secret gives back the
/// plaintext: the frame that `encrypt_file` produces under a secret of at least 32
/// bytes, with any nonce it drew, opens under that secret to the original content.
pub proof fn lemma_hybrid_round_trip(
    shared_secret: Seq<u8>,
    nonce: Seq<u8>,
    plaintext: Seq<u8>,
)
    requires
        shared_secret.len() >= AES_KEY_SIZE,
        nonce.len() == AES_NONCE_SIZE,
    ensures
        opens_to(
            aead_key(shared_secret),
            sealed_frame(aead_key(shared_secret), nonce, plaintext),
            plaintext,
        ),
{
    lemma_sealed_frame_opens(aead_key(shared_secret), nonce, plaintext);
}

} // verus!
