//! Pausing and resuming the game, as far as the console decides it.
//!
//! The calls to the operating system are made by the caller; here is what
//! is asked for and what the answer does to the pause mark.

use vstd::prelude::*;

verus! {

/// A request to the operating system about the game process.
#[derive(Clone, Copy, PartialEq, Eq, Debug, Structural)]
pub enum ProcessRequest {
    Suspend,
    Resume,
}

/// What the pause button asks for: to resume a paused game, to suspend a
/// running one.
pub open spec fn request_for(paused: bool) -> ProcessRequest {
    if paused {
        ProcessRequest::Resume
    } else {
        ProcessRequest::Suspend
    }
}

/// The pause mark after the operating system answered: the game counts as
/// paused exactly if a suspension succeeded or a resumption failed.
pub open spec fn paused_after(request: ProcessRequest, succeeded: bool) -> bool {
    match request {
        ProcessRequest::Suspend => succeeded,
        ProcessRequest::Resume => !succeeded,
    }
}

/// The request that the pause button makes.
pub fn pause_request(paused: bool) -> (r: ProcessRequest)
    ensures
        r == request_for(paused),
{
    if paused {
        ProcessRequest::Resume
    } else {
        ProcessRequest::Suspend
    }
}

/// The pause mark after the answer to `request`.
pub fn pause_after(request: ProcessRequest, succeeded: bool) -> (r: bool)
    ensures
        r == paused_after(request, succeeded),
{
    match request {
        ProcessRequest::Suspend => succeeded,
        ProcessRequest::Resume => !succeeded,
    }
}

/// A suspension that fails leaves the game unpaused, one that succeeds
/// pauses it, and a resumption that succeeds unpauses it, whatever the mark
/// was before.
pub proof fn lemma_pause_mark_follows_the_answers()
    ensures
        !paused_after(ProcessRequest::Suspend, false),
        paused_after(ProcessRequest::Suspend, true),
        !paused_after(ProcessRequest::Resume, true),
        paused_after(ProcessRequest::Resume, false),
{
}

/// Pressing the pause button on a running game and then, the suspension
/// having succeeded, pressing it again asks for a resumption; if that
/// succeeds too, the game is unpaused.
pub proof fn lemma_pause_then_resume()
    ensures
        request_for(paused_after(ProcessRequest::Suspend, true)) == ProcessRequest::Resume,
        !paused_after(request_for(paused_after(ProcessRequest::Suspend, true)), true),
        request_for(paused_after(ProcessRequest::Suspend, false)) == ProcessRequest::Suspend,
{
}

} // verus!
