use dynrpc::wire::decode_frame;
use dynrpc::wire::encode_frame;

#[test]
fn encode_copies_bytes_verbatim() {
    let payload = vec![0u8, 1, 2, 254, 255, 7];
    let frame = encode_frame(&payload);
    assert_eq!(frame, payload);
}

#[test]
fn round_trip_returns_original_bytes() {
    let payload = vec![9u8, 0, 13, 200, 31];
    let frame = encode_frame(&payload);
    let decoded = decode_frame(&frame);
    assert_eq!(decoded, Some(payload));
}

#[test]
fn empty_frame_decodes_to_no_value() {
    let decoded = decode_frame(&[]);
    assert!(decoded.is_none());
}

#[test]
fn single_byte_round_trip() {
    let frame = encode_frame(&[42u8]);
    assert_eq!(decode_frame(&frame), Some(vec![42u8]));
}
