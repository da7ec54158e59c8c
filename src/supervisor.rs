use vstd::prelude::*;

use crate::error::BridgeError;

verus! {

/// The reply of a start that found a process already held.
pub open spec fn already_running_text() -> Seq<char> {
    "Agent already running"@
}

/// The reply of a start that spawned the process.
pub open spec fn started_text() -> Seq<char> {
    "Agent started successfully"@
}

/// The handle held after a start from `held`, where `spawned` is what a launch
/// would give; a held handle is kept and no launch happens.
pub open spec fn after_start<H>(held: Option<H>, spawned: Result<H, String>) -> Option<H> {
    match held {
        Some(h) => Some(h),
        None => match spawned {
            Ok(h) => Some(h),
            Err(_) => None,
        },
    }
}

/// The reply of a start from `held`, with the text of a successful reply as a sequence.
pub open spec fn start_reply<H>(held: Option<H>, spawned: Result<H, String>) -> Result<Seq<char>, BridgeError> {
    match held {
        Some(_) => Ok(already_running_text()),
        None => match spawned {
            Ok(_) => Ok(started_text()),
            Err(reason) => Err(BridgeError::SpawnFailure(reason)),
        },
    }
}

/// Whether an executable reply is the reply `expected`.
pub open spec fn reply_is(r: Result<String, BridgeError>, expected: Result<Seq<char>, BridgeError>) -> bool {
    match (r, expected) {
        (Ok(m), Ok(t)) => m@ == t,
        (Err(e), Err(f)) => e == f,
        _ => false,
    }
}

/// The slot that holds the agent process, when one is held: at most one per bridge.
pub struct ProcessSlot<H> {
    pub handle: Option<H>,
}

impl<H> ProcessSlot<H> {
    /// A slot that holds no process.
    pub fn new() -> (r: Self)
        ensures
            r.handle is None,
    {
        ProcessSlot { handle: None }
    }

    /// Whether a process is held; no I/O.
    pub fn is_running(&self) -> (r: bool)
        ensures
            r == self.handle is Some,
    {
        self.handle.is_some()
    }

    /// Starts the agent unless one is held: `spawn` is called only when the slot is
    /// empty (it need not even be callable otherwise), and a handle it gives becomes
    /// the held process. The check and the launch happen in this one call, under the
    /// slot's exclusive borrow.
    pub fn start<F: FnOnce() -> Result<H, String>>(&mut self, spawn: F) -> (r: Result<String, BridgeError>)
        requires
            old(self).handle is None ==> call_requires(spawn, ()),
        ensures
            old(self).handle is Some ==> *final(self) == *old(self),
            old(self).handle is Some ==> reply_is(r, Ok(already_running_text())),
            old(self).handle is None ==> exists|s: Result<H, String>|
                #[trigger] call_ensures(spawn, (), s)
                && final(self).handle == after_start(None, s)
                && reply_is(r, start_reply(None, s)),
    {
        if self.handle.is_some() {
            proof {
                reveal_strlit("Agent already running");
            }
            return Ok(String::from_str("Agent already running"));
        }
        let spawned = spawn();
        match spawned {
            Ok(h) => {
                self.handle = Some(h);
                proof {
                    reveal_strlit("Agent started successfully");
                }
                Ok(String::from_str("Agent started successfully"))
            },
            Err(reason) => Err(BridgeError::SpawnFailure(reason)),
        }
    }
}

/// A start from a slot that holds a process changes nothing and replies that it is
/// already running; so after a start that left a process held, a second start
/// keeps that handle, launches nothing and replies so.
pub proof fn start_twice_spawns_once<H>(held: Option<H>, first: Result<H, String>, second: Result<H, String>)
    requires
        after_start(held, first) is Some,
    ensures
        after_start(after_start(held, first), second) == after_start(held, first),
        start_reply(after_start(held, first), second) == Ok::<Seq<char>, BridgeError>(already_running_text()),
{
}

/// A new slot is not running, and a start whose launch succeeds leaves it running,
/// whatever it held before and whether or not any exchange took place.
pub proof fn running_after_start<H>(held: Option<H>, h: H)
    ensures
        after_start(held, Ok(h)) is Some,
        held is None ==> after_start(held, Ok(h)) == Some(h),
{
}

} // verus!
