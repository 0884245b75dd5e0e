use vstd::prelude::*;
use vstd::slice::slice_subrange;

use crate::error::RustSealError;

verus! {

/// The largest nonce that a frame can carry: its length must fit in one byte.
pub const MAX_NONCE_LEN: usize = 255;

/// A frame: one byte holding the nonce length, the nonce, then the ciphertext.
pub open spec fn frame_encode(nonce: Seq<u8>, ciphertext: Seq<u8>) -> Seq<u8> {
    seq![nonce.len() as u8] + nonce + ciphertext
}

/// Splits a frame into its nonce and its ciphertext; `None` where the buffer is
/// empty or shorter than its length byte announces.
pub open spec fn frame_decode(buffer: Seq<u8>) -> Option<(Seq<u8>, Seq<u8>)> {
    if buffer.len() == 0 || buffer.len() < 1 + buffer[0] {
        None
    } else {
        let end = 1 + buffer[0];
        Some((buffer.subrange(1, end), buffer.subrange(end, buffer.len() as int)))
    }
}

/// Decoding an encoded frame gives back the nonce and the ciphertext, for every
/// nonce of at most 255 bytes and every ciphertext.
pub proof fn lemma_frame_round_trip(nonce: Seq<u8>, ciphertext: Seq<u8>)
    requires
        nonce.len() <= MAX_NONCE_LEN,
    ensures
        frame_decode(frame_encode(nonce, ciphertext)) == Some((nonce, ciphertext)),
{
    let buffer = frame_encode(nonce, ciphertext);
    assert(buffer[0] == nonce.len());
    assert(buffer.subrange(1, 1 + nonce.len() as int) =~= nonce);
    assert(buffer.subrange(1 + nonce.len() as int, buffer.len() as int) =~= ciphertext);
}

/// Frames `data` with `nonce`: `[nonce length][nonce][data]`.
pub fn combine_data_and_nonce(data: &[u8], nonce: &[u8]) -> (r: Result<Vec<u8>, RustSealError>)
    ensures
        nonce@.len() > MAX_NONCE_LEN ==> r == Err::<Vec<u8>, RustSealError>(
            RustSealError::NonceTooLong,
        ),
        nonce@.len() <= MAX_NONCE_LEN ==> (r matches Ok(v) && v@ == frame_encode(nonce@, data@)),
{
    if nonce.len() > MAX_NONCE_LEN {
        return Err(RustSealError::NonceTooLong);
    }
    let mut combined: Vec<u8> = Vec::new();
    combined.push(nonce.len() as u8);
    let mut i: usize = 0;
    while i < nonce.len()
        invariant
            i <= nonce@.len(),
            combined@ == seq![nonce@.len() as u8] + nonce@.subrange(0, i as int),
        decreases nonce@.len() - i,
    {
        combined.push(nonce[i]);
        i = i + 1;
        assert(combined@ =~= seq![nonce@.len() as u8] + nonce@.subrange(0, i as int));
    }
    let mut j: usize = 0;
    while j < data.len()
        invariant
            j <= data@.len(),
            combined@ == seq![nonce@.len() as u8] + nonce@ + data@.subrange(0, j as int),
        decreases data@.len() - j,
    {
        combined.push(data[j]);
        j = j + 1;
        assert(combined@ =~= seq![nonce@.len() as u8] + nonce@ + data@.subrange(0, j as int));
    }
    assert(data@.subrange(0, data@.len() as int) =~= data@);
    Ok(combined)
}

/// Splits a frame into `(nonce, data)`. Fails with `FramingTooShort` where the
/// buffer is empty or shorter than one byte plus the nonce length it announces.
pub fn extract_data_and_nonce(combined: &[u8]) -> (r: Result<(&[u8], &[u8]), RustSealError>)
    ensures
        frame_decode(combined@) is None ==> r == Err::<(&[u8], &[u8]), RustSealError>(
            RustSealError::FramingTooShort,
        ),
        frame_decode(combined@) matches Some((n, c)) ==> (r matches Ok((nonce, data)) && nonce@
            == n && data@ == c),
{
    if combined.len() == 0 {
        return Err(RustSealError::FramingTooShort);
    }
    let nonce_length = combined[0] as usize;
    if combined.len() < nonce_length + 1 {
        return Err(RustSealError::FramingTooShort);
    }
    let nonce = slice_subrange(combined, 1, 1 + nonce_length);
    let data = slice_subrange(combined, 1 + nonce_length, combined.len());
    Ok((nonce, data))
}

} // verus!
