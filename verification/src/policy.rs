//! Failure classification: what the worker asks of its scheduler when one of
//! its operations fails.

use vstd::prelude::*;

verus! {

/// What the scheduler is asked to do about a failed operation.
#[derive(Clone, Copy, Debug, PartialEq, Eq, Structural)]
pub enum WorkerError {
    /// Unrecoverable: the stage stops.
    Panic,
    /// The session is discarded and the worker bootstraps again.
    Restart,
    /// The same step is attempted again on the same session.
    Retry,
}

/// The fallible operations of the worker.
#[derive(Clone, Copy, Debug, PartialEq, Eq, Structural)]
pub enum Operation {
    /// Asking the storage engine for recent points.
    RecentPoints,
    /// Opening the session with the peer.
    Connect,
    /// Any of the intersection negotiation calls.
    Negotiate,
    /// Requesting the next chain event while holding agency.
    RequestNext,
    /// Waiting for the peer's outstanding reply.
    AwaitReply,
    /// Fetching a block body.
    BlockFetch,
    /// Decoding a header received from the peer.
    HeaderDecode,
    /// Sending an event on the downstream port.
    DownstreamSend,
}

/// The policy assigned to each operation.
pub open spec fn spec_policy(op: Operation) -> WorkerError {
    match op {
        Operation::RecentPoints => WorkerError::Panic,
        Operation::Connect => WorkerError::Retry,
        Operation::Negotiate => WorkerError::Restart,
        Operation::RequestNext => WorkerError::Restart,
        Operation::AwaitReply => WorkerError::Restart,
        Operation::BlockFetch => WorkerError::Retry,
        Operation::HeaderDecode => WorkerError::Panic,
        Operation::DownstreamSend => WorkerError::Panic,
    }
}

/// The policy assigned to `op`: every operation has exactly one.
#[verifier::when_used_as_spec(spec_policy)]
pub fn policy(op: Operation) -> (policy: WorkerError)
    ensures
        policy == spec_policy(op),
{
    match op {
        Operation::RecentPoints => WorkerError::Panic,
        Operation::Connect => WorkerError::Retry,
        Operation::Negotiate => WorkerError::Restart,
        Operation::RequestNext => WorkerError::Restart,
        Operation::AwaitReply => WorkerError::Restart,
        Operation::BlockFetch => WorkerError::Retry,
        Operation::HeaderDecode => WorkerError::Panic,
        Operation::DownstreamSend => WorkerError::Panic,
    }
}

/// The collaborator could not complete what was asked of it.
#[derive(Clone, Copy, Debug, PartialEq, Eq, Structural)]
pub struct Failure;

} // verus!
