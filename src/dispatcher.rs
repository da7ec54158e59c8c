use vstd::prelude::*;

use crate::codec::{classify, decode, decoded, decodes, is_failure_decoding, encode_request, kind_of, request_line_of, trimmed_of, LineKind};
use crate::error::BridgeError;

verus! {

/// What one read from the agent's output pipe gave.
#[derive(Debug)]
pub enum ReadEvent {
    /// A line, with its line ending if it had one.
    Line(String),
    /// The end of the stream.
    End,
    /// An I/O error, with its message.
    Failed(String),
}

/// What the exchange does after a read.
#[derive(Debug)]
pub enum ReadStep {
    /// Read the next line.
    KeepReading,
    /// The exchange is over, with this result.
    Finish(Result<String, BridgeError>),
}

/// Whether a read ends the exchange: the end of the stream, an error, or a line
/// that is neither blank nor a trace line.
pub open spec fn ends_exchange(e: ReadEvent) -> bool {
    match e {
        ReadEvent::Line(l) => kind_of(trimmed_of(l@)) == LineKind::Candidate,
        _ => true,
    }
}

/// The line to write for an exchange, or why none is written: an exchange needs a
/// held process with both pipes, and is refused before any I/O otherwise.
pub fn request_for(running: bool, stdin_available: bool, stdout_available: bool, message: &str, msg_id: &str) -> (r: Result<String, BridgeError>)
    ensures
        !running ==> r == Err::<String, BridgeError>(BridgeError::NotRunning),
        running && !stdin_available ==> r == Err::<String, BridgeError>(BridgeError::StdinUnavailable),
        running && stdin_available && !stdout_available ==> r == Err::<String, BridgeError>(BridgeError::StdoutUnavailable),
        running && stdin_available && stdout_available ==> (r matches Ok(line) && line@ == request_line_of(msg_id@, message@)),
{
    if !running {
        return Err(BridgeError::NotRunning);
    }
    if !stdin_available {
        return Err(BridgeError::StdinUnavailable);
    }
    if !stdout_available {
        return Err(BridgeError::StdoutUnavailable);
    }
    encode_request(msg_id, message)
}

/// Whether `r` is the result of an exchange whose candidate line is `line`: the
/// content of the response it decodes into, or the failure of decoding it.
pub open spec fn content_outcome(line: Seq<char>, r: Result<String, BridgeError>) -> bool {
    if decodes(line) {
        r == Ok::<String, BridgeError>(decoded(line).content)
    } else {
        r matches Err(e) && is_failure_decoding(line, e)
    }
}

/// The content of the response on a candidate line.
pub fn content_of(line: &str) -> (r: Result<String, BridgeError>)
    ensures
        content_outcome(line@, r),
{
    let d = decode(line);
    match d {
        Ok(resp) => Ok(resp.content),
        Err(e) => Err(e),
    }
}

/// Decides what follows one read: blank and trace lines are skipped, the first
/// other line is decoded and its content returned, and the end of the stream or a
/// read error ends the exchange with that error.
pub fn on_read(event: ReadEvent) -> (r: ReadStep)
    ensures
        r is Finish <==> ends_exchange(event),
        event is End ==> r matches ReadStep::Finish(Err(BridgeError::EmptyOutput)),
        event matches ReadEvent::Failed(m) ==> r == ReadStep::Finish(Err(BridgeError::ReadFailure(m))),
        event matches ReadEvent::Line(l) ==> (ends_exchange(event) ==> (r matches ReadStep::Finish(res) && content_outcome(l@, res))),
{
    match event {
        ReadEvent::End => ReadStep::Finish(Err(BridgeError::EmptyOutput)),
        ReadEvent::Failed(m) => ReadStep::Finish(Err(BridgeError::ReadFailure(m))),
        ReadEvent::Line(l) => {
            match classify(l.as_str()) {
                LineKind::Candidate => ReadStep::Finish(content_of(l.as_str())),
                _ => ReadStep::KeepReading,
            }
        },
    }
}

/// Of the reads of one exchange, the index of the read that ends it: the exchange
/// stops at the first read that ends it and reads nothing further.
pub open spec fn first_ending(reads: Seq<ReadEvent>) -> int
    decreases reads.len(),
{
    if reads.len() == 0 {
        0
    } else if ends_exchange(reads[0]) {
        0
    } else {
        1 + first_ending(reads.drop_first())
    }
}

/// Only blank and trace lines come before the read that ends an exchange, so trace
/// lines never reach the caller, and exactly one read, the first that qualifies,
/// ends it.
pub proof fn only_skipped_lines_precede(reads: Seq<ReadEvent>)
    ensures
        0 <= first_ending(reads) <= reads.len(),
        forall|i: int| 0 <= i < first_ending(reads) ==> !ends_exchange(#[trigger] reads[i]),
        first_ending(reads) < reads.len() ==> ends_exchange(reads[first_ending(reads)]),
    decreases reads.len(),
{
    if reads.len() > 0 && !ends_exchange(reads[0]) {
        only_skipped_lines_precede(reads.drop_first());
        assert forall|i: int| 0 <= i < first_ending(reads) implies !ends_exchange(#[trigger] reads[i]) by {
            if i > 0 {
                assert(reads[i] == reads.drop_first()[i - 1]);
            }
        }
        if first_ending(reads) < reads.len() {
            assert(reads[first_ending(reads)] == reads.drop_first()[first_ending(reads.drop_first())]);
        }
    }
}

} // verus!
