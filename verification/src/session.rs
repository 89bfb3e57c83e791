//! The connection-lifecycle decisions of one tunnel session: what the server
//! control plane writes on a fresh control connection before anything else,
//! and how either side's demultiplex loop routes one frame just read from
//! the control connection. The caller runs the loops and performs the I/O;
//! every decision and every registry update is made here.

use vstd::prelude::*;

use crate::codec::ProtocolError;
use crate::codec::ProxyHeader;
use crate::codec::ProxyHeaderType;
use crate::codec::SerializableBe;
use crate::framing::spec_data_frame;
use crate::framing::spec_data_header;
use crate::registry::Registry;
use crate::registry::RegistryEntry;
use crate::registry::has_handle;

verus! {

/// What the demultiplex loop must do with the frame just routed, beyond the
/// registry update already made here: the I/O only the caller can perform.
#[derive(Clone, Copy, Debug, PartialEq, Eq, Structural)]
pub enum DemuxAction {
    /// Write the frame's payload to the stream behind `handle`.
    ForwardPayload { handle: usize },
    /// The frame referenced an unseen connection ID, now registered under
    /// `handle`: attach the freshly dialed stream under that handle, spawn
    /// its pump, then write the payload to it.
    AttachAndForward { handle: usize },
    /// Shut both directions of the stream behind `handle` down; its registry
    /// entry stays in the map.
    ShutdownStream { handle: usize },
    /// Nothing to do: the frame's target is absent, which is tolerated.
    Ignore,
    /// The frame is a fatal protocol violation for the whole session.
    FailSession { err: ProtocolError },
}

/// Routes one frame read by the server's demultiplex loop. Data goes to the
/// public connection registered for its `conn_id` (public connections are
/// registered at accept time, never created here; a missing target is
/// tolerated); Fin shuts the target down without removing it; a Start is a
/// fatal protocol violation, since only the server itself sends Start.
pub fn server_on_frame(reg: &mut Registry, header: &ProxyHeader) -> (act: DemuxAction)
    requires
        old(reg).wf(),
    ensures
        final(reg).wf(),
        header.header_type == ProxyHeaderType::Data ==> {
            &&& final(reg)@ == old(reg)@
            &&& act == if old(reg)@.contains_key(header.conn_id) {
                DemuxAction::ForwardPayload { handle: old(reg)@[header.conn_id].handle }
            } else {
                DemuxAction::Ignore
            }
        },
        header.header_type == ProxyHeaderType::Fin && old(reg)@.contains_key(header.conn_id) ==> {
            &&& final(reg)@ == old(reg)@.insert(
                header.conn_id,
                RegistryEntry { handle: old(reg)@[header.conn_id].handle, shut: true },
            )
            &&& act == DemuxAction::ShutdownStream { handle: old(reg)@[header.conn_id].handle }
        },
        header.header_type == ProxyHeaderType::Fin && !old(reg)@.contains_key(header.conn_id) ==> {
            &&& final(reg)@ == old(reg)@
            &&& act == DemuxAction::Ignore
        },
        header.header_type == ProxyHeaderType::Start ==> {
            &&& final(reg)@ == old(reg)@
            &&& act == DemuxAction::FailSession { err: ProtocolError::UnexpectedFrameType }
        },
{
    match header.header_type {
        ProxyHeaderType::Data => {
            match reg.lookup(header.conn_id) {
                Some(e) => DemuxAction::ForwardPayload { handle: e.handle },
                None => DemuxAction::Ignore,
            }
        },
        ProxyHeaderType::Fin => {
            match reg.lookup(header.conn_id) {
                Some(e) => {
                    reg.shutdown_and_keep(header.conn_id);
                    DemuxAction::ShutdownStream { handle: e.handle }
                },
                None => DemuxAction::Ignore,
            }
        },
        ProxyHeaderType::Start => {
            DemuxAction::FailSession { err: ProtocolError::UnexpectedFrameType }
        },
    }
}

/// Routes one frame read by the agent's demultiplex loop. Data goes to the
/// backend connection for its `conn_id`, registering the offered fresh
/// handle first when the ID is unseen — the caller then dials the backend
/// once and spawns the reverse pump; Fin shuts the target down without
/// removing it, and a missing target is not an error; a Start after the
/// first frame is a fatal protocol violation.
pub fn agent_on_frame(reg: &mut Registry, header: &ProxyHeader, fresh_handle: usize) -> (act:
    DemuxAction)
    requires
        old(reg).wf(),
        !has_handle(old(reg)@, fresh_handle),
    ensures
        final(reg).wf(),
        header.header_type == ProxyHeaderType::Data && old(reg)@.contains_key(header.conn_id)
            ==> {
            &&& final(reg)@ == old(reg)@
            &&& act == DemuxAction::ForwardPayload { handle: old(reg)@[header.conn_id].handle }
        },
        header.header_type == ProxyHeaderType::Data && !old(reg)@.contains_key(header.conn_id)
            ==> {
            &&& final(reg)@ == old(reg)@.insert(
                header.conn_id,
                RegistryEntry { handle: fresh_handle, shut: false },
            )
            &&& act == DemuxAction::AttachAndForward { handle: fresh_handle }
        },
        header.header_type == ProxyHeaderType::Fin && old(reg)@.contains_key(header.conn_id) ==> {
            &&& final(reg)@ == old(reg)@.insert(
                header.conn_id,
                RegistryEntry { handle: old(reg)@[header.conn_id].handle, shut: true },
            )
            &&& act == DemuxAction::ShutdownStream { handle: old(reg)@[header.conn_id].handle }
        },
        header.header_type == ProxyHeaderType::Fin && !old(reg)@.contains_key(header.conn_id) ==> {
            &&& final(reg)@ == old(reg)@
            &&& act == DemuxAction::Ignore
        },
        header.header_type == ProxyHeaderType::Start ==> {
            &&& final(reg)@ == old(reg)@
            &&& act == DemuxAction::FailSession { err: ProtocolError::UnexpectedFrameType }
        },
{
    match header.header_type {
        ProxyHeaderType::Data => {
            let (handle, created) = reg.get_or_create(header.conn_id, fresh_handle);
            if created {
                DemuxAction::AttachAndForward { handle }
            } else {
                DemuxAction::ForwardPayload { handle }
            }
        },
        ProxyHeaderType::Fin => {
            match reg.lookup(header.conn_id) {
                Some(e) => {
                    reg.shutdown_and_keep(header.conn_id);
                    DemuxAction::ShutdownStream { handle: e.handle }
                },
                None => DemuxAction::Ignore,
            }
        },
        ProxyHeaderType::Start => {
            DemuxAction::FailSession { err: ProtocolError::UnexpectedFrameType }
        },
    }
}

/// The agent's check of the very first frame read on a freshly dialed
/// control connection: it must be a Start frame, whose `port` is the public
/// port the server bound for this session. Anything else is fatal to the
/// whole session; there is no retry.
pub fn agent_expect_start(header: &ProxyHeader) -> (r: Result<u16, ProtocolError>)
    ensures
        header.header_type == ProxyHeaderType::Start ==> r == Ok::<u16, ProtocolError>(header.port),
        header.header_type != ProxyHeaderType::Start ==> r == Err::<u16, ProtocolError>(
            ProtocolError::UnexpectedFrameType,
        ),
{
    match header.header_type {
        ProxyHeaderType::Start => Ok(header.port),
        _ => Err(ProtocolError::UnexpectedFrameType),
    }
}

/// The server side of one tunnel session's control connection: it frames
/// everything the server writes there, and logs the headers written, in
/// order, in ghost state. Its invariant pins the session down to writing
/// exactly one Start frame — carrying the session's bound public port —
/// before any other frame.
pub struct ControlSession {
    port: u16,
    started: bool,
    frames: Ghost<Seq<ProxyHeader>>,
}

impl ControlSession {
    /// The public port this session announces.
    pub closed spec fn spec_port(&self) -> u16 {
        self.port
    }

    /// Whether the Start frame has been written.
    pub closed spec fn spec_started(&self) -> bool {
        self.started
    }

    /// The headers written on the control connection so far, in order.
    pub closed spec fn frames(&self) -> Seq<ProxyHeader> {
        self.frames@
    }

    /// Until Start is written nothing is on the wire; from then on the
    /// session's first frame is that one Start frame.
    pub open spec fn wf(&self) -> bool {
        if self.spec_started() {
            self.frames().len() > 0 && self.frames()[0] == ProxyHeader::spec_start_header(
                self.spec_port(),
            )
        } else {
            self.frames().len() == 0
        }
    }

    /// A session for a control connection just accepted, announcing `port`:
    /// nothing is written yet.
    pub fn new(port: u16) -> (r: ControlSession)
        ensures
            r.wf(),
            !r.spec_started(),
            r.spec_port() == port,
            r.frames() == Seq::<ProxyHeader>::empty(),
    {
        ControlSession { port, started: false, frames: Ghost(Seq::empty()) }
    }

    /// The bytes of the session's Start frame: `conn_id` 0 and the bound
    /// public port. The caller must write them to the control connection
    /// before the demultiplex loop or any pump starts, which the session
    /// enforces by requiring this as its first frame.
    pub fn start_frame(&mut self) -> (r: Vec<u8>)
        requires
            old(self).wf(),
            !old(self).spec_started(),
        ensures
            final(self).wf(),
            final(self).spec_started(),
            final(self).spec_port() == old(self).spec_port(),
            final(self).frames() == old(self).frames().push(
                ProxyHeader::spec_start_header(old(self).spec_port()),
            ),
            r@ == ProxyHeader::spec_start_header(old(self).spec_port()).spec_serial(),
    {
        let h = ProxyHeader::make_start_header(self.port);
        self.started = true;
        proof {
            self.frames@ = self.frames@.push(h);
        }
        h.serialize_be()
    }

    /// The bytes one pump hands to the control connection for one chunk of
    /// payload: a Data frame for `conn_id`, to be written as one unit under
    /// the per-destination write lock.
    pub fn data_frame(&mut self, conn_id: u16, payload: &[u8]) -> (r: Vec<u8>)
        requires
            old(self).wf(),
            old(self).spec_started(),
            payload@.len() <= u32::MAX,
        ensures
            final(self).wf(),
            final(self).spec_started(),
            final(self).spec_port() == old(self).spec_port(),
            final(self).frames() == old(self).frames().push(
                spec_data_header(conn_id, old(self).spec_port(), payload@.len() as u32),
            ),
            r@ == spec_data_frame(conn_id, old(self).spec_port(), payload@),
    {
        proof {
            self.frames@ = self.frames@.push(
                spec_data_header(conn_id, self.port, payload@.len() as u32),
            );
        }
        crate::framing::encode_data_frame(conn_id, self.port, payload)
    }
}

/// Start-first invariant: once a session has put anything at all on its
/// control connection, the first frame written there is a Start frame with
/// `conn_id` 0 whose `port` is the session's bound public listener port.
pub proof fn lemma_start_first(s: &ControlSession)
    requires
        s.wf(),
        s.frames().len() > 0,
    ensures
        s.frames()[0].header_type == ProxyHeaderType::Start,
        s.frames()[0].conn_id == 0,
        s.frames()[0].port == s.spec_port(),
        s.frames()[0].data_len == 0,
{
}

} // verus!
