use netcode::frame::decode_frame;
use netcode::frame::encode_frame;
use netcode::frame::net_decode_u64;
use netcode::frame::net_encode_u64;

#[test]
fn test_net_encode_u64_exact() {
    assert_eq!(net_encode_u64(0x0102030405060708), vec![1, 2, 3, 4, 5, 6, 7, 8]);
    assert_eq!(net_encode_u64(0), vec![0, 0, 0, 0, 0, 0, 0, 0]);
    assert_eq!(net_encode_u64(1024), vec![0, 0, 0, 0, 0, 0, 4, 0]);
    assert_eq!(
        net_encode_u64(u64::MAX),
        vec![0xff, 0xff, 0xff, 0xff, 0xff, 0xff, 0xff, 0xff]
    );
}

#[test]
fn test_net_decode_u64_exact() {
    assert_eq!(net_decode_u64(&[1, 2, 3, 4, 5, 6, 7, 8]), 0x0102030405060708);
    assert_eq!(net_decode_u64(&[0, 0, 0, 0, 0, 0, 0, 0]), 0);
    assert_eq!(net_decode_u64(&[0, 0, 0, 0, 0, 0, 4, 0]), 1024);
}

#[test]
fn test_net_u64_round_trip() {
    for v in [0u64, 1, 255, 256, 1024, 0xdead_beef, u64::MAX] {
        assert_eq!(net_decode_u64(&net_encode_u64(v)), v);
    }
}

#[test]
fn test_encode_frame_layout() {
    assert_eq!(encode_frame(b"ab"), vec![0, 0, 0, 0, 0, 0, 0, 2, 97, 98]);
    assert_eq!(encode_frame(b""), vec![0, 0, 0, 0, 0, 0, 0, 0]);
}

#[test]
fn test_frame_round_trip() {
    let wire = encode_frame(b"hello");
    let (payload, consumed) = decode_frame(&wire, 1024).expect("frame should decode");
    assert_eq!(payload, b"hello".to_vec());
    assert_eq!(consumed, 13);
}

#[test]
fn test_frame_round_trip_empty_payload() {
    let wire = encode_frame(b"");
    let (payload, consumed) = decode_frame(&wire, 0).expect("frame should decode");
    assert_eq!(payload, Vec::<u8>::new());
    assert_eq!(consumed, 8);
}

#[test]
fn test_frame_round_trip_at_cap() {
    let bytes = [7u8; 16];
    let wire = encode_frame(&bytes);
    let (payload, consumed) = decode_frame(&wire, 16).expect("frame should decode");
    assert_eq!(payload, bytes.to_vec());
    assert_eq!(consumed, 24);
}

#[test]
fn test_frame_oversize_returns_empty() {
    let bytes = [7u8; 17];
    let wire = encode_frame(&bytes);
    let (payload, consumed) = decode_frame(&wire, 16).expect("oversize must not fail the read");
    assert_eq!(payload, Vec::<u8>::new());
    assert_ne!(payload, bytes.to_vec());
    assert_eq!(consumed, 8);
}

#[test]
fn test_frame_trailing_bytes_ignored() {
    let mut wire = encode_frame(b"abc");
    wire.extend_from_slice(&[9, 9, 9, 9]);
    let (payload, consumed) = decode_frame(&wire, 1024).expect("frame should decode");
    assert_eq!(payload, b"abc".to_vec());
    assert_eq!(consumed, 11);
}

#[test]
fn test_frame_short_wire_rejected() {
    assert!(decode_frame(&[0, 0, 0], 1024).is_none());
    // Declared length of 5 but only 2 payload bytes present.
    assert!(decode_frame(&[0, 0, 0, 0, 0, 0, 0, 5, 1, 2], 1024).is_none());
}
