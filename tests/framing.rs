use rust_seal::framing::{combine_data_and_nonce, extract_data_and_nonce};
use rust_seal::RustSealError;

#[test]
fn frame_layout_is_length_nonce_data() {
    let framed = combine_data_and_nonce(&[9, 8, 7], &[1, 2]).unwrap();
    assert_eq!(framed, vec![2, 1, 2, 9, 8, 7]);
}

#[test]
fn frame_round_trip_for_every_nonce_length() {
    let data: Vec<u8> = (0..40u8).collect();
    for len in 0..=255usize {
        let nonce: Vec<u8> = (0..len).map(|i| (i * 7 % 256) as u8).collect();
        let framed = combine_data_and_nonce(&data, &nonce).unwrap();
        assert_eq!(framed.len(), 1 + len + data.len());
        let (n, d) = extract_data_and_nonce(&framed).unwrap();
        assert_eq!(n, &nonce[..]);
        assert_eq!(d, &data[..]);
    }
}

#[test]
fn frame_round_trip_with_empty_data() {
    let framed = combine_data_and_nonce(&[], &[4, 5, 6]).unwrap();
    let (n, d) = extract_data_and_nonce(&framed).unwrap();
    assert_eq!(n, &[4, 5, 6][..]);
    assert!(d.is_empty());
}

#[test]
fn frame_nonce_too_long() {
    let nonce = vec![0u8; 256];
    assert_eq!(
        combine_data_and_nonce(&[1], &nonce),
        Err(RustSealError::NonceTooLong)
    );
}

#[test]
fn frame_decode_empty_buffer() {
    assert_eq!(
        extract_data_and_nonce(&[]),
        Err(RustSealError::FramingTooShort)
    );
}

#[test]
fn frame_decode_shorter_than_announced() {
    assert_eq!(
        extract_data_and_nonce(&[5, 1, 2, 3]),
        Err(RustSealError::FramingTooShort)
    );
    let (n, d) = extract_data_and_nonce(&[3, 1, 2, 3]).unwrap();
    assert_eq!(n, &[1, 2, 3][..]);
    assert!(d.is_empty());
}

#[test]
fn frame_decode_length_byte_only() {
    let (n, d) = extract_data_and_nonce(&[0]).unwrap();
    assert!(n.is_empty());
    assert!(d.is_empty());
}
