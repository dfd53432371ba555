//! How a finished process is classified for the caller.

use vstd::prelude::*;
use crate::status::{Failure, STATUS_FAILED, STATUS_OK, STATUS_RUNNING};

verus! {

/// The classification handed to the caller: 0 for success and 1 for every
/// other end; the signal number is not told apart and is always 0.
#[derive(Clone, Copy, Debug, PartialEq, Eq, Structural)]
pub struct ExitCode {
    pub exit_code: i32,
    pub signal: i32,
}

/// The classification of a process that ended with or without success.
pub open spec fn classified(succeeded: bool) -> ExitCode {
    ExitCode { exit_code: if succeeded { 0 } else { 1 }, signal: 0 }
}

/// Classifies a finished process.
pub fn classify(succeeded: bool) -> (code: ExitCode)
    ensures
        code == classified(succeeded),
{
    if succeeded {
        ExitCode { exit_code: 0, signal: 0 }
    } else {
        ExitCode { exit_code: 1, signal: 0 }
    }
}

/// What a poll found.
#[derive(Clone, Copy, Debug, PartialEq, Eq, Structural)]
pub enum Poll {
    /// The process has ended, with this classification.
    Exited(ExitCode),
    /// The process has not ended yet.
    StillRunning,
}

/// The status of a poll: 0 for an ended process, 1 for a running one,
/// negative for a failure.
pub open spec fn spec_poll_code<E>(outcome: Result<Poll, E>) -> int {
    match outcome {
        Ok(Poll::Exited(_)) => 0,
        Ok(Poll::StillRunning) => 1,
        Err(_) => -1,
    }
}

/// The integer status of a poll.
pub fn poll_code(outcome: &Result<Poll, Failure>) -> (code: i32)
    ensures
        code == spec_poll_code(*outcome),
{
    match outcome {
        Ok(Poll::Exited(_)) => STATUS_OK,
        Ok(Poll::StillRunning) => STATUS_RUNNING,
        Err(_) => STATUS_FAILED,
    }
}

/// The status of a liveness check: 0 for a process that is not alive, 1 for
/// one that is, negative for a failure.
pub open spec fn spec_alive_code<E>(outcome: Result<bool, E>) -> int {
    match outcome {
        Ok(false) => 0,
        Ok(true) => 1,
        Err(_) => -1,
    }
}

/// The integer status of a liveness check.
pub fn alive_code(outcome: &Result<bool, Failure>) -> (code: i32)
    ensures
        code == spec_alive_code(*outcome),
{
    match outcome {
        Ok(false) => STATUS_OK,
        Ok(true) => STATUS_RUNNING,
        Err(_) => STATUS_FAILED,
    }
}

} // verus!
