use tprox::codec::ProtocolError;
use tprox::codec::ProxyHeaderType;
use tprox::framing::encode_data_frame;
use tprox::framing::take_frame;
use tprox::framing::FrameError;

#[test]
fn test_encode_data_frame_exact() {
    let frame = encode_data_frame(7, 80, b"hi");
    assert_eq!(frame, vec![0, 7, 0, 80, 2, 0, 0, 0, 2, b'h', b'i']);
}

#[test]
fn test_encode_data_frame_empty_payload() {
    let frame = encode_data_frame(1, 0, b"");
    assert_eq!(frame, vec![0, 1, 0, 0, 2, 0, 0, 0, 0]);
}

#[test]
fn test_take_frame_boundaries() {
    // Two Data frames back to back: each parses out with exactly its own
    // payload, and the declared data_len matches the bytes forwarded.
    let mut stream = encode_data_frame(1, 80, b"abc");
    stream.extend_from_slice(&encode_data_frame(2, 80, b"defg"));

    let (h1, p1, pos) = take_frame(&stream, 0).unwrap();
    assert_eq!(h1.conn_id, 1);
    assert_eq!(h1.header_type, ProxyHeaderType::Data);
    assert_eq!(h1.data_len, 3);
    assert_eq!(p1, b"abc".to_vec());
    assert_eq!(pos, 12);

    let (h2, p2, end) = take_frame(&stream, pos).unwrap();
    assert_eq!(h2.conn_id, 2);
    assert_eq!(h2.data_len, 4);
    assert_eq!(p2, b"defg".to_vec());
    assert_eq!(end, stream.len());
}

#[test]
fn test_take_frame_short_header() {
    let stream = vec![0u8, 1, 0, 80, 2];
    assert_eq!(take_frame(&stream, 0), Err(FrameError::ConnectionClosed));
}

#[test]
fn test_take_frame_short_payload() {
    // Header promises 5 payload bytes but only 2 follow.
    let stream = vec![0u8, 1, 0, 80, 2, 0, 0, 0, 5, b'x', b'y'];
    assert_eq!(take_frame(&stream, 0), Err(FrameError::ConnectionClosed));
}

#[test]
fn test_take_frame_invalid_type() {
    let stream = vec![0u8, 1, 0, 80, 9, 0, 0, 0, 0];
    assert_eq!(
        take_frame(&stream, 0),
        Err(FrameError::Protocol(ProtocolError::InvalidFrameType))
    );
}

#[test]
fn test_take_frame_start_and_fin_have_no_payload() {
    // A Start frame followed by a Fin frame: neither consumes payload bytes
    // even with a nonzero data_len on the Fin (data_len is meaningful only
    // on Data frames).
    let mut stream = vec![0u8, 0, 0x10, 0x92, 1, 0, 0, 0, 0];
    stream.extend_from_slice(&[0u8, 3, 0, 0, 3, 0, 0, 0, 0]);
    let (h1, p1, pos) = take_frame(&stream, 0).unwrap();
    assert_eq!(h1.header_type, ProxyHeaderType::Start);
    assert_eq!(h1.port, 4242);
    assert!(p1.is_empty());
    assert_eq!(pos, 9);
    let (h2, p2, end) = take_frame(&stream, pos).unwrap();
    assert_eq!(h2.header_type, ProxyHeaderType::Fin);
    assert_eq!(h2.conn_id, 3);
    assert!(p2.is_empty());
    assert_eq!(end, 18);
}
