//! A bridge between a host application and one long-running agent process that
//! speaks a line protocol of JSON objects over its standard input and output.
//!
//! The library holds the decisions of the bridge: whether a start spawns, what
//! line an exchange writes, how each line read back is classified and decoded,
//! and which error each failure becomes. Process handles, pipes and locking are
//! supplied by the host around it.
pub mod error;
pub mod codec;
pub mod supervisor;
pub mod dispatcher;

pub use error::BridgeError;
pub use codec::{classify, classify_trimmed, decode, encode_request, response_from_members, LineKind, Member, Response};
pub use supervisor::ProcessSlot;
pub use dispatcher::{content_of, on_read, request_for, ReadEvent, ReadStep};
