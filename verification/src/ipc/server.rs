//! Which socket path may be bound: a live server's socket is never stolen, and
//! only stale files are removed.

use vstd::prelude::*;
use crate::error::IpcError;
use crate::text::joined;

verus! {

/// What lies at the socket path.
#[derive(Debug, PartialEq, Eq)]
pub enum PathState {
    /// Nothing.
    Missing,
    /// A socket, live or stale.
    Socket,
    /// Some other file.
    Other,
    /// The path could not be inspected.
    Unreadable(String),
}

/// What happened when an existing socket was connected to.
#[derive(Debug, PartialEq, Eq)]
pub enum ProbeOutcome {
    /// A server answered.
    Connected,
    /// Nobody listens on it.
    Refused,
    /// It went away in the meantime.
    Gone,
    /// The probe failed in some other way.
    Failed(String),
}

/// What to do next about the socket path.
#[derive(Debug, PartialEq, Eq)]
pub enum SocketStep {
    /// The path is free: bind it.
    Bind,
    /// Connect to the existing socket to see whether it is live.
    Probe,
    /// Remove the stale file, then bind.
    Unlink,
    /// Give up.
    Fail(IpcError),
}

/// What follows from looking at the path: only a socket is probed, any other
/// file is stale.
pub fn after_inspection(state: PathState) -> (step: SocketStep)
    ensures
        (step is Bind) == (state is Missing),
        (step is Probe) == (state is Socket),
        (step is Unlink) == (state is Other),
        state is Unreadable ==> step is Fail && step->Fail_0 is Socket && step->Fail_0->Socket_0@
            == "stat socket path: "@ + state->Unreadable_0@,
{
    match state {
        PathState::Missing => SocketStep::Bind,
        PathState::Socket => SocketStep::Probe,
        PathState::Other => SocketStep::Unlink,
        PathState::Unreadable(detail) => SocketStep::Fail(
            IpcError::Socket(joined("stat socket path: ", detail.as_str())),
        ),
    }
}

/// What follows from probing an existing socket at `path`: a live one is left
/// alone, a refused one is stale.
pub fn after_probe(outcome: ProbeOutcome, path: &str) -> (step: SocketStep)
    ensures
        (step is Bind) == (outcome is Gone),
        (step is Unlink) == (outcome is Refused),
        !(step is Probe),
        outcome is Connected ==> step is Fail && step->Fail_0 is Socket && step->Fail_0->Socket_0@
            == "now-playing socket already in use: "@ + path@,
        outcome is Failed ==> step is Fail && step->Fail_0 is Socket && step->Fail_0->Socket_0@
            == "probe existing socket: "@ + outcome->Failed_0@,
{
    match outcome {
        ProbeOutcome::Connected => SocketStep::Fail(
            IpcError::Socket(joined("now-playing socket already in use: ", path)),
        ),
        ProbeOutcome::Refused => SocketStep::Unlink,
        ProbeOutcome::Gone => SocketStep::Bind,
        ProbeOutcome::Failed(detail) => SocketStep::Fail(
            IpcError::Socket(joined("probe existing socket: ", detail.as_str())),
        ),
    }
}

} // verus!
