//! Framing of payload bytes into Data frames for a shared control
//! connection, and the parsing of complete frames back out of a byte
//! stream: one 9-byte header, then exactly `data_len` payload bytes for a
//! Data frame and no payload for Start and Fin.

use vstd::prelude::*;

use crate::codec::ProtocolError;
use crate::codec::ProxyHeader;
use crate::codec::ProxyHeaderType;
use crate::codec::SerializableBe;

verus! {

/// Failures while obtaining one frame from a byte stream: the stream ended
/// before a full header or a full payload was obtained, or the header did
/// not decode.
#[derive(Clone, Copy, Debug, PartialEq, Eq, Structural)]
pub enum FrameError {
    ConnectionClosed,
    Protocol(ProtocolError),
}

/// The Data header announcing `len` payload bytes for `conn_id`. A `port`
/// of 0 means the field is not significant.
pub open spec fn spec_data_header(conn_id: u16, port: u16, len: u32) -> ProxyHeader {
    ProxyHeader { conn_id, port, header_type: ProxyHeaderType::Data, data_len: len }
}

/// One complete Data frame: a header whose `data_len` is the payload length,
/// immediately followed by the payload.
pub open spec fn spec_data_frame(conn_id: u16, port: u16, payload: Seq<u8>) -> Seq<u8>
    recommends
        payload.len() <= u32::MAX,
{
    spec_data_header(conn_id, port, payload.len() as u32).spec_serial() + payload
}

/// How many payload bytes follow a header on the wire: `data_len` for a
/// Data frame, none for Start and Fin.
pub open spec fn spec_payload_len(h: ProxyHeader) -> int {
    if h.header_type == ProxyHeaderType::Data {
        h.data_len as int
    } else {
        0
    }
}

/// The frame obtained from `s` at offset `pos`: the decoded header, its
/// payload bytes, and the offset just past the frame. Fails with
/// `ConnectionClosed` if `s` ends before the header or the payload is
/// complete, and with `Protocol` if the header does not decode.
pub open spec fn spec_take_frame(s: Seq<u8>, pos: int) -> Result<
    (ProxyHeader, Seq<u8>, int),
    FrameError,
>
    recommends
        0 <= pos <= s.len(),
{
    if pos + 9 > s.len() {
        Err(FrameError::ConnectionClosed)
    } else {
        match ProxyHeader::spec_decode(s.subrange(pos, pos + 9)) {
            Err(e) => Err(FrameError::Protocol(e)),
            Ok(h) => {
                if pos + 9 + spec_payload_len(h) > s.len() {
                    Err(FrameError::ConnectionClosed)
                } else {
                    Ok((h, s.subrange(pos + 9, pos + 9 + spec_payload_len(h)), pos + 9
                        + spec_payload_len(h)))
                }
            },
        }
    }
}

/// Builds the bytes a framed writer puts on the control connection for one
/// write: a Data header with `data_len` equal to the payload length,
/// immediately followed by the payload, as one unit. Writers sharing one
/// destination must put this unit on the stream without interleaving.
pub fn encode_data_frame(conn_id: u16, port: u16, payload: &[u8]) -> (r: Vec<u8>)
    requires
        payload@.len() <= u32::MAX,
    ensures
        r@ == spec_data_frame(conn_id, port, payload@),
{
    let header = ProxyHeader {
        conn_id,
        port,
        header_type: ProxyHeaderType::Data,
        data_len: payload.len() as u32,
    };
    let mut out = header.serialize_be();
    out.extend_from_slice(payload);
    out
}

/// Obtains one complete frame from in-memory bytes at offset `pos`,
/// returning the header, the payload and the offset just past the frame.
pub fn take_frame(input: &[u8], pos: usize) -> (r: Result<(ProxyHeader, Vec<u8>, usize), FrameError>)
    requires
        pos <= input@.len(),
    ensures
        spec_take_frame(input@, pos as int) matches Ok(t) ==> (r matches Ok(e) && e.0 == t.0
            && e.1@ == t.1 && e.2 == t.2),
        spec_take_frame(input@, pos as int) matches Err(e) ==> r == Err::<
            (ProxyHeader, Vec<u8>, usize),
            FrameError,
        >(e),
{
    if input.len() - pos < 9 {
        return Err(FrameError::ConnectionClosed);
    }
    let hb: [u8; 9] = [
        input[pos],
        input[pos + 1],
        input[pos + 2],
        input[pos + 3],
        input[pos + 4],
        input[pos + 5],
        input[pos + 6],
        input[pos + 7],
        input[pos + 8],
    ];
    proof {
        assert(hb@ =~= input@.subrange(pos as int, pos as int + 9));
    }
    let header = match ProxyHeader::from_be_bytes(&hb) {
        Ok(h) => h,
        Err(e) => {
            return Err(FrameError::Protocol(e));
        },
    };
    let need: usize = if let ProxyHeaderType::Data = header.header_type {
        header.data_len as usize
    } else {
        0
    };
    if input.len() - pos - 9 < need {
        return Err(FrameError::ConnectionClosed);
    }
    let base: usize = pos + 9;
    let end: usize = base + need;
    let mut payload: Vec<u8> = Vec::new();
    let mut i: usize = 0;
    while i < need
        invariant
            i <= need,
            base + need == end,
            end <= input@.len(),
            payload@ == input@.subrange(base as int, base + i),
        decreases need - i,
    {
        payload.push(input[base + i]);
        proof {
            assert(payload@ =~= input@.subrange(base as int, base + i + 1));
        }
        i = i + 1;
    }
    Ok((header, payload, end))
}

/// What one framed writer's destination carries after a whole sequence of
/// writes, each a (conn_id, payload) pair framed separately and put on the
/// stream without interleaving: the concatenation of their Data frames.
pub open spec fn spec_data_frames(writes: Seq<(u16, Seq<u8>)>, port: u16) -> Seq<u8>
    decreases writes.len(),
{
    if writes.len() == 0 {
        Seq::empty()
    } else {
        spec_data_frame(writes[0].0, port, writes[0].1) + spec_data_frames(writes.skip(1), port)
    }
}

/// Every payload of the sequence fits in a Data frame's length field.
pub open spec fn spec_writes_ok(writes: Seq<(u16, Seq<u8>)>) -> bool {
    forall|i: int| 0 <= i < writes.len() ==> (#[trigger] writes[i]).1.len() <= u32::MAX
}

/// Payload boundaries survive framing: a Data frame put at the front of any
/// byte stream parses back as exactly its header and exactly its payload,
/// with the declared `data_len` matching the payload length, leaving the
/// following bytes untouched.
pub proof fn lemma_data_frame_boundaries(conn_id: u16, port: u16, payload: Seq<u8>, rest: Seq<u8>)
    requires
        payload.len() <= u32::MAX,
    ensures
        spec_take_frame(spec_data_frame(conn_id, port, payload) + rest, 0) == Ok::<
            (ProxyHeader, Seq<u8>, int),
            FrameError,
        >((spec_data_header(conn_id, port, payload.len() as u32), payload, 9 + payload.len() as int)),
{
    let h = spec_data_header(conn_id, port, payload.len() as u32);
    let s = spec_data_frame(conn_id, port, payload) + rest;
    assert(h.spec_serial().len() == 9);
    assert(s.subrange(0, 9) =~= h.spec_serial());
    crate::codec::lemma_header_round_trip(h);
    assert(spec_payload_len(h) == payload.len());
    assert(s.subrange(9, 9 + payload.len() as int) =~= payload);
}

/// Multiplexed writes come back out in order: the stream a framed writer
/// produced for a sequence of writes parses as exactly the first write —
/// right connection ID, right payload, declared length equal to the payload
/// length — and what remains past it is exactly the stream of the remaining
/// writes. Walking the stream this way, a demultiplex loop therefore sees
/// every write, in write order, with its boundaries preserved.
pub proof fn lemma_data_frames_in_order(writes: Seq<(u16, Seq<u8>)>, port: u16)
    requires
        spec_writes_ok(writes),
        writes.len() > 0,
    ensures
        spec_take_frame(spec_data_frames(writes, port), 0) == Ok::<
            (ProxyHeader, Seq<u8>, int),
            FrameError,
        >(
            (
                spec_data_header(writes[0].0, port, writes[0].1.len() as u32),
                writes[0].1,
                9 + writes[0].1.len() as int,
            ),
        ),
        spec_data_frames(writes, port).skip(9 + writes[0].1.len() as int) == spec_data_frames(
            writes.skip(1),
            port,
        ),
{
    let payload = writes[0].1;
    let rest = spec_data_frames(writes.skip(1), port);
    let h = spec_data_header(writes[0].0, port, payload.len() as u32);
    let frame = spec_data_frame(writes[0].0, port, payload);
    assert(writes[0].1.len() <= u32::MAX);
    lemma_data_frame_boundaries(writes[0].0, port, payload, rest);
    assert(h.spec_serial().len() == 9);
    assert(frame.len() == 9 + payload.len());
    assert(spec_data_frames(writes, port) == frame + rest);
    assert((frame + rest).skip(9 + payload.len() as int) =~= rest);
}

} // verus!
