use tprox::codec::ProtocolError;
use tprox::codec::ProxyHeader;
use tprox::codec::ProxyHeaderType;
use tprox::codec::SerializableBe;

fn round_trip(h: ProxyHeader) -> ProxyHeader {
    let bytes = h.serialize_be();
    assert_eq!(bytes.len(), 9);
    let arr: [u8; 9] = bytes.as_slice().try_into().unwrap();
    ProxyHeader::from_be_bytes(&arr).unwrap()
}

#[test]
fn test_header_round_trip() {
    let types = [ProxyHeaderType::Start, ProxyHeaderType::Data, ProxyHeaderType::Fin];
    let conn_ids = [0u16, 1, 0x1234, u16::MAX];
    let ports = [0u16, 80, 54321, u16::MAX];
    let lens = [0u32, 1, 0xdead_beef, u32::MAX];
    for &header_type in &types {
        for &conn_id in &conn_ids {
            for &port in &ports {
                for &data_len in &lens {
                    let h = ProxyHeader { conn_id, port, header_type, data_len };
                    assert_eq!(round_trip(h), h);
                }
            }
        }
    }
}

#[test]
fn test_serialize_layout_exact() {
    let h = ProxyHeader {
        conn_id: 0x1234,
        port: 0xabcd,
        header_type: ProxyHeaderType::Data,
        data_len: 0x01020304,
    };
    assert_eq!(h.serialize_be(), vec![0x12, 0x34, 0xab, 0xcd, 2, 0x01, 0x02, 0x03, 0x04]);
}

#[test]
fn test_invalid_type_rejected() {
    for bad in [0u8, 4, 5, 0x7f, 0xff] {
        let buf: [u8; 9] = [0, 7, 0, 80, bad, 0, 0, 0, 3];
        assert_eq!(ProxyHeader::from_be_bytes(&buf), Err(ProtocolError::InvalidFrameType));
    }
}

#[test]
fn test_from_byte() {
    assert_eq!(ProxyHeaderType::from_byte(1), Ok(ProxyHeaderType::Start));
    assert_eq!(ProxyHeaderType::from_byte(2), Ok(ProxyHeaderType::Data));
    assert_eq!(ProxyHeaderType::from_byte(3), Ok(ProxyHeaderType::Fin));
    assert_eq!(ProxyHeaderType::from_byte(0), Err(ProtocolError::InvalidFrameType));
    assert_eq!(ProxyHeaderType::from_byte(42), Err(ProtocolError::InvalidFrameType));
}

#[test]
fn test_type_serialize_be() {
    assert_eq!(ProxyHeaderType::Start.serialize_be(), vec![1]);
    assert_eq!(ProxyHeaderType::Data.serialize_be(), vec![2]);
    assert_eq!(ProxyHeaderType::Fin.serialize_be(), vec![3]);
}

#[test]
fn test_make_start_header() {
    let h = ProxyHeader::make_start_header(4242);
    assert_eq!(h.conn_id, 0);
    assert_eq!(h.port, 4242);
    assert_eq!(h.header_type, ProxyHeaderType::Start);
    assert_eq!(h.data_len, 0);
    assert_eq!(h.serialize_be(), vec![0, 0, 0x10, 0x92, 1, 0, 0, 0, 0]);
}

#[test]
fn test_header_len() {
    assert_eq!(ProxyHeader::HEADER_LEN, 9);
}
