//! A reverse TCP tunnel library: a publicly reachable server exposes a
//! backend service that lives behind NAT by multiplexing many public
//! connections over one control connection that the client initiates.
//!
//! This crate holds the verified core: the fixed 9-byte frame codec, the
//! framing of payloads into Data frames, the per-session connection registry
//! with its lifecycle operations, and the demultiplexing decisions of both
//! the server control plane and the client agent. The raw byte-stream
//! transport is out of scope; callers hand frames in and out as plain bytes.

pub mod codec;
pub mod framing;
pub mod registry;
pub mod session;

pub use codec::ProtocolError;
pub use codec::ProxyHeader;
pub use codec::ProxyHeaderType;
pub use codec::SerializableBe;
