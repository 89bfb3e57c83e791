//! The frame codec: the fixed 9-byte header exchanged on the control
//! connection, its big-endian wire layout, and the decoder's error taxonomy.

use vstd::prelude::*;

verus! {

/// Protocol-level failures: a header whose type byte is outside the three
/// known frame types, or a frame whose type is not allowed in the current
/// state (for example, a first frame that is not Start).
#[derive(Clone, Copy, Debug, PartialEq, Eq, Structural)]
pub enum ProtocolError {
    InvalidFrameType,
    UnexpectedFrameType,
}

/// The three frame types carried on a control connection. Start announces
/// the server's public port, Data carries payload bytes for one logical
/// connection, Fin tells the peer to shut a logical connection down.
#[derive(Clone, Copy, Debug, PartialEq, Eq, Structural)]
pub enum ProxyHeaderType {
    Start,
    Data,
    Fin,
}

/// Objects that serialize to bytes in big-endian order.
pub trait SerializableBe {
    /// The byte sequence this value serializes to.
    spec fn spec_serial(&self) -> Seq<u8>;

    fn serialize_be(&self) -> (r: Vec<u8>)
        ensures
            r@ == self.spec_serial(),
    ;
}

impl ProxyHeaderType {
    /// The wire byte for this frame type.
    pub open spec fn as_byte(self) -> u8 {
        match self {
            ProxyHeaderType::Start => 1,
            ProxyHeaderType::Data => 2,
            ProxyHeaderType::Fin => 3,
        }
    }

    /// The frame type a wire byte stands for: only 1, 2 and 3 are valid.
    pub open spec fn spec_from_byte(byte: u8) -> Result<ProxyHeaderType, ProtocolError> {
        if byte == 1 {
            Ok(ProxyHeaderType::Start)
        } else if byte == 2 {
            Ok(ProxyHeaderType::Data)
        } else if byte == 3 {
            Ok(ProxyHeaderType::Fin)
        } else {
            Err(ProtocolError::InvalidFrameType)
        }
    }

    pub fn from_byte(byte: u8) -> (r: Result<ProxyHeaderType, ProtocolError>)
        ensures
            r == Self::spec_from_byte(byte),
    {
        match byte {
            1 => Ok(ProxyHeaderType::Start),
            2 => Ok(ProxyHeaderType::Data),
            3 => Ok(ProxyHeaderType::Fin),
            _ => Err(ProtocolError::InvalidFrameType),
        }
    }
}

impl SerializableBe for ProxyHeaderType {
    open spec fn spec_serial(&self) -> Seq<u8> {
        seq![self.as_byte()]
    }

    fn serialize_be(&self) -> (r: Vec<u8>) {
        let mut v: Vec<u8> = Vec::new();
        match self {
            ProxyHeaderType::Start => v.push(1),
            ProxyHeaderType::Data => v.push(2),
            ProxyHeaderType::Fin => v.push(3),
        }
        proof {
            assert(v@ =~= self.spec_serial());
        }
        v
    }
}

/// The header that precedes every unit exchanged on the control connection.
/// Control messages that are connection agnostic have a `conn_id` of 0;
/// `port` is meaningful only on Start frames and `data_len` only on Data
/// frames, which are followed by exactly `data_len` payload bytes.
#[derive(Clone, Copy, Debug, PartialEq, Eq, Structural)]
pub struct ProxyHeader {
    pub conn_id: u16,
    pub port: u16,
    pub header_type: ProxyHeaderType,
    pub data_len: u32,
}

/// The two big-endian bytes of a 16-bit field.
pub open spec fn spec_u16_be(x: u16) -> Seq<u8> {
    seq![(x >> 8) as u8, (x & 0xff) as u8]
}

/// The four big-endian bytes of a 32-bit field.
pub open spec fn spec_u32_be(x: u32) -> Seq<u8> {
    seq![
        (x >> 24) as u8,
        ((x >> 16) & 0xff) as u8,
        ((x >> 8) & 0xff) as u8,
        (x & 0xff) as u8,
    ]
}

/// The 16-bit value two big-endian bytes stand for.
pub open spec fn spec_u16_from_be(hi: u8, lo: u8) -> u16 {
    (((hi as u16) << 8) | (lo as u16)) as u16
}

/// The 32-bit value four big-endian bytes stand for.
pub open spec fn spec_u32_from_be(b0: u8, b1: u8, b2: u8, b3: u8) -> u32 {
    (((b0 as u32) << 24) | ((b1 as u32) << 16) | ((b2 as u32) << 8) | (b3 as u32)) as u32
}

impl ProxyHeader {
    pub const HEADER_LEN: usize = 9;

    /// The Start header announcing the server's bound public port.
    pub open spec fn spec_start_header(port: u16) -> ProxyHeader {
        ProxyHeader { conn_id: 0, port, header_type: ProxyHeaderType::Start, data_len: 0 }
    }

    /// The header decoded from 9 wire bytes: big-endian fields in order
    /// conn_id, port, type, data_len; fails if the type byte is invalid.
    pub open spec fn spec_decode(s: Seq<u8>) -> Result<ProxyHeader, ProtocolError>
        recommends
            s.len() == 9,
    {
        match ProxyHeaderType::spec_from_byte(s[4]) {
            Ok(t) => Ok(
                ProxyHeader {
                    conn_id: spec_u16_from_be(s[0], s[1]),
                    port: spec_u16_from_be(s[2], s[3]),
                    header_type: t,
                    data_len: spec_u32_from_be(s[5], s[6], s[7], s[8]),
                },
            ),
            Err(e) => Err(e),
        }
    }

    pub fn from_be_bytes(bytes: &[u8; 9]) -> (r: Result<ProxyHeader, ProtocolError>)
        ensures
            r == Self::spec_decode(bytes@),
    {
        let header_type = match ProxyHeaderType::from_byte(bytes[4]) {
            Ok(t) => t,
            Err(e) => {
                return Err(e);
            },
        };
        let conn_id = ((bytes[0] as u16) << 8) | (bytes[1] as u16);
        let port = ((bytes[2] as u16) << 8) | (bytes[3] as u16);
        let data_len = ((bytes[5] as u32) << 24) | ((bytes[6] as u32) << 16) | (
        (bytes[7] as u32) << 8) | (bytes[8] as u32);
        Ok(ProxyHeader { conn_id, port, header_type, data_len })
    }

    pub fn make_start_header(port: u16) -> (r: ProxyHeader)
        ensures
            r == Self::spec_start_header(port),
    {
        ProxyHeader { conn_id: 0, port, header_type: ProxyHeaderType::Start, data_len: 0 }
    }
}

impl SerializableBe for ProxyHeader {
    open spec fn spec_serial(&self) -> Seq<u8> {
        spec_u16_be(self.conn_id) + spec_u16_be(self.port) + seq![self.header_type.as_byte()]
            + spec_u32_be(self.data_len)
    }

    fn serialize_be(&self) -> (r: Vec<u8>) {
        let mut v: Vec<u8> = Vec::new();
        proof {
            let c = self.conn_id;
            let p = self.port;
            let d = self.data_len;
            assert(c >> 8 <= 0xff && c & 0xff <= 0xff) by (bit_vector);
            assert(p >> 8 <= 0xff && p & 0xff <= 0xff) by (bit_vector);
            assert(d >> 24 <= 0xff && (d >> 16) & 0xff <= 0xff && (d >> 8) & 0xff <= 0xff && d
                & 0xff <= 0xff) by (bit_vector);
        }
        v.push((self.conn_id >> 8) as u8);
        v.push((self.conn_id & 0xff) as u8);
        v.push((self.port >> 8) as u8);
        v.push((self.port & 0xff) as u8);
        match self.header_type {
            ProxyHeaderType::Start => v.push(1),
            ProxyHeaderType::Data => v.push(2),
            ProxyHeaderType::Fin => v.push(3),
        }
        v.push((self.data_len >> 24) as u8);
        v.push(((self.data_len >> 16) & 0xff) as u8);
        v.push(((self.data_len >> 8) & 0xff) as u8);
        v.push((self.data_len & 0xff) as u8);
        proof {
            assert(v@ =~= self.spec_serial());
        }
        v
    }
}

/// Decoding the serialized form of any header gives that header back: the
/// wire layout loses nothing for any valid field combination.
pub proof fn lemma_header_round_trip(h: ProxyHeader)
    ensures
        ProxyHeader::spec_decode(h.spec_serial()) == Ok::<ProxyHeader, ProtocolError>(h),
{
    let s = h.spec_serial();
    assert(s.len() == 9);
    let c = h.conn_id;
    let p = h.port;
    let d = h.data_len;
    assert(s[0] == (c >> 8) as u8 && s[1] == (c & 0xff) as u8);
    assert(s[2] == (p >> 8) as u8 && s[3] == (p & 0xff) as u8);
    assert(s[4] == h.header_type.as_byte());
    assert(s[5] == (d >> 24) as u8 && s[6] == ((d >> 16) & 0xff) as u8 && s[7] == ((d >> 8)
        & 0xff) as u8 && s[8] == (d & 0xff) as u8);
    assert(spec_u16_from_be((c >> 8) as u8, (c & 0xff) as u8) == c) by (bit_vector);
    assert(spec_u16_from_be((p >> 8) as u8, (p & 0xff) as u8) == p) by (bit_vector);
    assert(spec_u32_from_be(
        (d >> 24) as u8,
        ((d >> 16) & 0xff) as u8,
        ((d >> 8) & 0xff) as u8,
        (d & 0xff) as u8,
    ) == d) by (bit_vector);
    assert(ProxyHeaderType::spec_from_byte(h.header_type.as_byte())
        == Ok::<ProxyHeaderType, ProtocolError>(h.header_type));
}

/// Any 9-byte buffer whose type byte is not one of the three known frame
/// types is rejected with `InvalidFrameType`.
pub proof fn lemma_invalid_type_rejected(s: Seq<u8>)
    requires
        s.len() == 9,
        s[4] != 1,
        s[4] != 2,
        s[4] != 3,
    ensures
        ProxyHeader::spec_decode(s) == Err::<ProxyHeader, ProtocolError>(
            ProtocolError::InvalidFrameType,
        ),
{
}

} // verus!
