//! The core of a voice connection to a real-time media relay: the state
//! machine of one session, the pipeline that feeds it audio, and the cache
//! that keeps a source in memory, compressed and replayable.
//!
//! The library does no I/O. Commands and transport events come in as plain
//! values; the new state and what to do next come out. Handshakes, sockets,
//! ciphers and codecs belong to the caller.
use vstd::prelude::*;

pub mod buffer;
pub mod driver;
pub mod error;
pub mod machine;
pub mod pipeline;
pub mod seekable;
pub mod session;
pub mod source;
pub mod transport;

verus! {

} // verus!
