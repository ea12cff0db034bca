use bbb::{decode_buffer, finish_decode, inflate, skip_header, ExtractError, DECODE_SLACK};

#[test]
fn header_skip_returns_tail_after_two_fields() {
    let payload = vec![0, 0, 0, 0, 0, 0, 0, 2, 0xAA, 0xBB, 0, 0, 0, 1, 0xCC, 7, 8, 9];
    assert_eq!(skip_header(payload), Ok(vec![7, 8, 9]));
}

#[test]
fn header_skip_leaves_unmarked_payload_alone() {
    let payload: Vec<u8> = (1..=40).collect();
    let once = skip_header(payload.clone()).unwrap();
    assert_eq!(once, payload);
    let twice = skip_header(once.clone()).unwrap();
    assert_eq!(twice, once);
}

#[test]
fn header_skip_ignores_short_zero_prefixed_payload() {
    let payload = vec![0u8; 16];
    assert_eq!(skip_header(payload.clone()), Ok(payload));
}

#[test]
fn header_skip_refuses_fields_past_the_end() {
    let mut payload = vec![0, 0, 0, 0, 0, 0, 1, 0];
    payload.extend_from_slice(&[5u8; 10]);
    assert_eq!(skip_header(payload), Err(ExtractError::MalformedHeader));

    let mut second_too_long = vec![0, 0, 0, 0, 0, 0, 0, 1, 0xAA, 0, 0, 0, 20];
    second_too_long.extend_from_slice(&[1u8; 6]);
    assert_eq!(skip_header(second_too_long), Err(ExtractError::MalformedHeader));
}

#[test]
fn header_skip_can_leave_nothing() {
    let payload = vec![0, 0, 0, 0, 0, 0, 0, 3, 1, 2, 3, 0, 0, 0, 2, 4, 5];
    assert_eq!(skip_header(payload), Ok(vec![]));
}

#[test]
fn decode_buffer_adds_slack() {
    let b = decode_buffer(10).unwrap();
    assert_eq!(b.len(), 10 + DECODE_SLACK);
    assert_eq!(DECODE_SLACK, 64);
    assert!(b.iter().all(|&x| x == 0));
    assert!(decode_buffer(usize::MAX - 63).is_none());
}

#[test]
fn finish_decode_negative_code_fails() {
    let out = vec![0u8; 4 + DECODE_SLACK];
    assert_eq!(finish_decode(out, -3, 4), Err(ExtractError::DecompressFailed(-3)));
}

#[test]
fn finish_decode_other_length_is_size_mismatch() {
    let out = vec![1u8; 4 + DECODE_SLACK];
    assert_eq!(
        finish_decode(out, 5, 4),
        Err(ExtractError::SizeMismatch { expected: 4, actual: 5 })
    );
}

#[test]
fn finish_decode_cuts_slack() {
    let mut out = vec![1u8, 2, 3, 4];
    out.extend_from_slice(&[9u8; DECODE_SLACK]);
    assert_eq!(finish_decode(out, 4, 4), Ok(vec![1, 2, 3, 4]));
}

#[test]
fn finish_decode_skips_header() {
    let mut out = vec![0, 0, 0, 0, 0, 0, 0, 2, 0xAA, 0xBB, 0, 0, 0, 1, 0xCC, 7, 8, 9];
    out.extend_from_slice(&[0xEE; DECODE_SLACK]);
    assert_eq!(finish_decode(out, 18, 18), Ok(vec![7, 8, 9]));
}

#[test]
fn inflate_stored_block() {
    let stream = vec![0x78, 0x01, 0x01, 0x03, 0x00, 0xfc, 0xff, b'a', b'b', b'c', 0x02, 0x4d, 0x01, 0x27];
    assert_eq!(inflate(stream), Ok(b"abc".to_vec()));
}

#[test]
fn inflate_empty_stream() {
    let stream = vec![0x78, 0x9c, 0x03, 0x00, 0x00, 0x00, 0x00, 0x01];
    assert_eq!(inflate(stream), Ok(vec![]));
}

#[test]
fn inflate_refuses_garbage() {
    assert!(inflate(vec![1, 2, 3]).is_err());
    assert!(inflate(vec![0x11, 0x22, 0x33, 0x44, 0x55, 0x66, 0x77]).is_err());
}
