use shade::codec::{
    decode_frame, encode_frame, take_frame, CodecError, DEFAULT_MAX_FRAME_LEN, HEADER_LEN,
};

#[test]
fn frame_is_big_endian_length_then_payload() {
    let bytes = encode_frame(b"hello", DEFAULT_MAX_FRAME_LEN).unwrap();
    assert_eq!(bytes, vec![0, 0, 0, 5, b'h', b'e', b'l', b'l', b'o']);
}

#[test]
fn frame_length_uses_all_four_bytes() {
    let payload = vec![7u8; 0x0001_0203];
    let bytes = encode_frame(&payload, DEFAULT_MAX_FRAME_LEN).unwrap();
    assert_eq!(&bytes[..HEADER_LEN], &[0x00, 0x01, 0x02, 0x03]);
    assert_eq!(bytes.len(), HEADER_LEN + payload.len());
    assert_eq!(&bytes[HEADER_LEN..], &payload[..]);
}

#[test]
fn empty_payload_is_a_frame() {
    let bytes = encode_frame(b"", DEFAULT_MAX_FRAME_LEN).unwrap();
    assert_eq!(bytes, vec![0, 0, 0, 0]);
    assert_eq!(decode_frame(&bytes, DEFAULT_MAX_FRAME_LEN), Ok(Some((vec![], 4))));
}

#[test]
fn frame_round_trip() {
    let payloads: Vec<Vec<u8>> = vec![
        b"\"List\"".to_vec(),
        b"{\"Revoke\":{\"id\":\"550e8400-e29b-41d4-a716-446655440000\"}}".to_vec(),
        (0..=255u8).collect(),
    ];
    for payload in payloads {
        let bytes = encode_frame(&payload, DEFAULT_MAX_FRAME_LEN).unwrap();
        let decoded = decode_frame(&bytes, DEFAULT_MAX_FRAME_LEN);
        assert_eq!(decoded, Ok(Some((payload.clone(), payload.len() + 4))));
    }
}

#[test]
fn decode_leaves_what_follows_the_frame() {
    let mut bytes = encode_frame(b"one", 16).unwrap();
    bytes.extend_from_slice(&[9, 9]);
    assert_eq!(decode_frame(&bytes, 16), Ok(Some((b"one".to_vec(), 7))));
}

#[test]
fn partial_frame_asks_for_more() {
    let bytes = encode_frame(b"payload", 64).unwrap();
    for cut in 0..bytes.len() {
        assert_eq!(decode_frame(&bytes[..cut], 64), Ok(None));
    }
}

#[test]
fn payload_over_the_maximum_is_not_framed() {
    assert_eq!(encode_frame(&[0u8; 9], 8), Err(CodecError::FrameTooLarge));
    assert!(encode_frame(&[0u8; 8], 8).is_ok());
}

#[test]
fn declared_length_over_the_maximum_is_rejected() {
    assert_eq!(decode_frame(&[0, 0, 0, 9], 8), Err(CodecError::FrameTooLarge));
    assert_eq!(decode_frame(&[0, 0, 0, 9, 1, 2, 3], 8), Err(CodecError::FrameTooLarge));
    assert_eq!(decode_frame(&[0xff, 0xff, 0xff, 0xff], 8), Err(CodecError::FrameTooLarge));
    assert_eq!(decode_frame(&[0, 0x80, 0, 1], DEFAULT_MAX_FRAME_LEN), Err(CodecError::FrameTooLarge));
}

#[test]
fn declared_length_at_the_maximum_is_accepted() {
    assert_eq!(decode_frame(&[0, 0, 0, 8], 8), Ok(None));
    let bytes = [0, 0, 0, 8, 1, 2, 3, 4, 5, 6, 7, 8];
    assert_eq!(decode_frame(&bytes, 8), Ok(Some((vec![1, 2, 3, 4, 5, 6, 7, 8], 12))));
    assert_eq!(DEFAULT_MAX_FRAME_LEN, 8 * 1024 * 1024);
}

#[test]
fn frames_come_out_in_order() {
    let mut buffer = encode_frame(b"first", 64).unwrap();
    buffer.extend(encode_frame(b"second", 64).unwrap());
    buffer.extend_from_slice(&[0, 0]);
    assert_eq!(take_frame(&mut buffer, 64), Ok(Some(b"first".to_vec())));
    assert_eq!(take_frame(&mut buffer, 64), Ok(Some(b"second".to_vec())));
    assert_eq!(take_frame(&mut buffer, 64), Ok(None));
    assert_eq!(buffer, vec![0, 0]);
}

#[test]
fn rejected_buffer_is_left_alone() {
    let mut buffer = vec![0, 0, 1, 0, 42];
    assert_eq!(take_frame(&mut buffer, 255), Err(CodecError::FrameTooLarge));
    assert_eq!(buffer, vec![0, 0, 1, 0, 42]);
}
