use vstd::prelude::*;

verus! {

/// Every way in which starting the agent or one exchange with it can fail.
#[derive(Debug)]
pub enum BridgeError {
    /// The process could not be launched; the operating system's reason.
    SpawnFailure(String),
    /// An exchange was attempted while no process is held.
    NotRunning,
    /// The held process has no input pipe.
    StdinUnavailable,
    /// The held process has no output pipe.
    StdoutUnavailable,
    /// The request could not be turned into JSON text.
    EncodeFailure(String),
    /// Writing the request line failed.
    WriteFailure(String),
    /// Flushing the input pipe failed.
    FlushFailure(String),
    /// Reading from the output pipe failed.
    ReadFailure(String),
    /// The output ended before a response line came.
    EmptyOutput,
    /// The response line is not a JSON object of the response's shape.
    DecodeFailure { line: String, detail: String },
}

/// The message shown to the host for an error.
pub open spec fn message_of(e: BridgeError) -> Seq<char> {
    match e {
        BridgeError::SpawnFailure(m) => "Failed to start agent: "@ + m@,
        BridgeError::NotRunning => "Agent not running. Call start_agent first."@,
        BridgeError::StdinUnavailable => "Failed to access agent stdin"@,
        BridgeError::StdoutUnavailable => "Failed to access agent stdout"@,
        BridgeError::EncodeFailure(m) => "JSON serialization error: "@ + m@,
        BridgeError::WriteFailure(m) => "Failed to write to agent: "@ + m@,
        BridgeError::FlushFailure(m) => "Failed to flush stdin: "@ + m@,
        BridgeError::ReadFailure(m) => "Failed to read response: "@ + m@,
        BridgeError::EmptyOutput => "Agent process produced no output"@,
        BridgeError::DecodeFailure { line, detail } => "Failed to parse response: "@ + detail@ + ", line: "@ + line@,
    }
}

/// `head` followed by `tail`.
fn joined(head: &str, tail: &String) -> (r: String)
    ensures
        r@ == head@ + tail@,
{
    let mut s = String::from_str(head);
    s.append(tail.as_str());
    s
}

impl BridgeError {
    /// The message shown to the host for this error.
    pub fn message(&self) -> (r: String)
        ensures
            r@ == message_of(*self),
    {
        match self {
            BridgeError::SpawnFailure(m) => joined("Failed to start agent: ", m),
            BridgeError::NotRunning => String::from_str("Agent not running. Call start_agent first."),
            BridgeError::StdinUnavailable => String::from_str("Failed to access agent stdin"),
            BridgeError::StdoutUnavailable => String::from_str("Failed to access agent stdout"),
            BridgeError::EncodeFailure(m) => joined("JSON serialization error: ", m),
            BridgeError::WriteFailure(m) => joined("Failed to write to agent: ", m),
            BridgeError::FlushFailure(m) => joined("Failed to flush stdin: ", m),
            BridgeError::ReadFailure(m) => joined("Failed to read response: ", m),
            BridgeError::EmptyOutput => String::from_str("Agent process produced no output"),
            BridgeError::DecodeFailure { line, detail } => {
                let mut s = joined("Failed to parse response: ", detail);
                s.append(", line: ");
                s.append(line.as_str());
                s
            },
        }
    }
}

} // verus!
