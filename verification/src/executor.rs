//! The decisions of the bounded executor.
//!
//! A call runs its work on a worker and waits for the result until a
//! deadline. Spawning, waiting and signalling are the caller's part; what
//! the wait came to is handed to [`resolve`], which says what the call
//! returns and what remains to be done. Each wait has exactly one outcome
//! and so each call exactly one result.

use vstd::prelude::*;
use vstd::string::StringExecFns;
use crate::constants::{DEFAULT_TIMEOUT, MIN_TIMEOUT};
use crate::error::{ExtractError, ExtractErrorView, PboError, PboErrorView};

verus! {

/// How the wait for a worker ended.
pub enum WaitOutcome<T> {
    /// The worker sent its result before the deadline.
    Completed(T),
    /// The deadline passed first.
    TimedOut,
    /// The worker went away without sending anything.
    Disconnected,
}

/// What the caller is to do after the call has returned.
#[derive(Debug, Clone, Copy, PartialEq, Eq, Structural)]
pub enum FollowUp {
    /// Nothing is left to do.
    Nothing,
    /// Signal the worker to stop and leave it to a detached reaper, which
    /// waits [`REAPER_GRACE_SECONDS`] and then joins it. The signal is
    /// advisory: a process that the worker has started may run on.
    CancelAndReap,
}

/// How long the reaper waits before it joins a worker that timed out.
pub const REAPER_GRACE_SECONDS: u64 = 1;

/// The message of the error for a worker that went away.
pub open spec fn disconnected_message() -> Seq<char> {
    "Operation thread terminated unexpectedly"@
}

/// The timeout that a request for `seconds` configures: at least one
/// second.
pub open spec fn configured_timeout(seconds: u32) -> u32 {
    if seconds < MIN_TIMEOUT {
        MIN_TIMEOUT
    } else {
        seconds
    }
}

/// The timeout in force where `requested` was asked for, or the default
/// where nothing was.
pub open spec fn timeout_in_force(requested: Option<u32>) -> u32 {
    match requested {
        Some(seconds) => configured_timeout(seconds),
        None => DEFAULT_TIMEOUT,
    }
}

/// The error that a call returns where its wait did not end with a result.
pub open spec fn failure_of<T>(outcome: WaitOutcome<T>, timeout_seconds: u32) -> Option<
    PboErrorView,
> {
    match outcome {
        WaitOutcome::Completed(_) => None,
        WaitOutcome::TimedOut => Some(PboErrorView::Timeout(timeout_seconds)),
        WaitOutcome::Disconnected => Some(
            PboErrorView::Extraction(ExtractErrorView::Canceled(disconnected_message())),
        ),
    }
}

/// What is left to do after a wait.
pub open spec fn follow_up_of<T>(outcome: WaitOutcome<T>) -> FollowUp {
    match outcome {
        WaitOutcome::TimedOut => FollowUp::CancelAndReap,
        _ => FollowUp::Nothing,
    }
}

/// A wait that ran into its deadline yields the timeout error with the
/// configured duration, and no result of the worker is returned beside it.
pub proof fn lemma_timeout_yields_no_result<T>(timeout_seconds: u32)
    ensures
        failure_of(WaitOutcome::<T>::TimedOut, timeout_seconds) == Some(
            PboErrorView::Timeout(timeout_seconds),
        ),
        follow_up_of(WaitOutcome::<T>::TimedOut) == FollowUp::CancelAndReap,
{
}

/// The timeout that a request for `seconds` configures.
pub fn clamp_timeout(seconds: u32) -> (r: u32)
    ensures
        r == configured_timeout(seconds),
        r >= MIN_TIMEOUT,
{
    if seconds < MIN_TIMEOUT {
        MIN_TIMEOUT
    } else {
        seconds
    }
}

/// What a call returns after its wait ended with `outcome`, and what is
/// left to do. A completed wait hands the worker's own result through
/// unchanged; a deadline yields `Timeout` with the configured duration; a
/// worker that went away yields `Canceled`.
pub fn resolve<T>(outcome: WaitOutcome<Result<T, PboError>>, timeout_seconds: u32) -> (r: (
    Result<T, PboError>,
    FollowUp,
))
    ensures
        r.1 == follow_up_of(outcome),
        outcome matches WaitOutcome::Completed(result) ==> r.0 == result,
        match failure_of(outcome, timeout_seconds) {
            Some(e) => r.0 is Err && r.0->Err_0@ == e,
            None => true,
        },
{
    match outcome {
        WaitOutcome::Completed(result) => (result, FollowUp::Nothing),
        WaitOutcome::TimedOut => (Err(PboError::Timeout(timeout_seconds)), FollowUp::CancelAndReap),
        WaitOutcome::Disconnected => (
            Err(
                PboError::Extraction(
                    ExtractError::Canceled(
                        String::from_str("Operation thread terminated unexpectedly"),
                    ),
                ),
            ),
            FollowUp::Nothing,
        ),
    }
}

/// Whether a worker that has finished its work is to send the result: not
/// once it was told to stop, for then the caller has returned already.
pub fn should_deliver(cancel_requested: bool) -> (r: bool)
    ensures
        r == !cancel_requested,
{
    !cancel_requested
}

} // verus!
