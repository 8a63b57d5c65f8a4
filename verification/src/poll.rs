//! What a worker learns each time it looks up from its work: whether it was
//! asked to stop, and whether the host is still running.

use vstd::prelude::*;

verus! {

/// Outcome of a non-blocking look at a worker's shutdown channel.
#[derive(Debug, Clone, Copy, PartialEq, Eq, Structural)]
pub enum ShutdownSignal {
    /// A stop request was waiting.
    Requested,
    /// Nothing was waiting.
    Quiet,
    /// The sending side is gone and nothing was waiting.
    Disconnected,
}

/// One poll: the state of the shutdown channel and of the host's running flag.
#[derive(Debug, Clone, Copy, PartialEq, Eq, Structural)]
pub struct PollResult {
    pub signal: ShutdownSignal,
    pub host_running: bool,
}

/// A worker stops when a stop request was waiting or the host no longer runs.
/// A channel whose sender is gone carries no request.
pub open spec fn stop_requested(poll: PollResult) -> bool {
    poll.signal is Requested || !poll.host_running
}

/// Decides whether a worker that polled `poll` stops.
pub fn should_stop(poll: PollResult) -> (stop: bool)
    ensures
        stop == stop_requested(poll),
{
    match poll.signal {
        ShutdownSignal::Requested => true,
        _ => !poll.host_running,
    }
}

} // verus!
