//! The state of a controller and of a child as plain values, and how each
//! operation moves it. The answer of the underlying primitive is an argument
//! of every step, so a step is defined for every answer.

use vstd::prelude::*;
use crate::exit::{classified, classify, ExitCode, Poll};
use crate::status::{
    outcome_view, reply_view, reported_view, taken_failure, unknown_text, ErrorKind, ErrorMessage,
    Failure, FailureView,
};

verus! {

/// A controller's state: its geometry, and whether its writer was handed
/// out.
#[derive(Clone, Copy, Debug, PartialEq, Eq, Structural)]
pub struct MasterState {
    pub rows: u16,
    pub cols: u16,
    pub writer_taken: bool,
}

/// The size that the system is asked for where a session shall have `rows`
/// by `cols` cells: the size of a cell in pixels is left unspecified, which
/// is written as zero.
pub open spec fn size_request(rows: u16, cols: u16) -> (u16, u16, u16, u16) {
    (rows, cols, 0u16, 0u16)
}

/// A controller as it is opened.
pub open spec fn opened(rows: u16, cols: u16) -> MasterState {
    MasterState { rows, cols, writer_taken: false }
}

/// Where a child stands. `Exited` is final, and holds whether the process
/// succeeded; a termination request leads there only through a later wait
/// or poll.
#[derive(Clone, Copy, Debug, PartialEq, Eq, Structural)]
pub enum Lifecycle {
    Running,
    KillPending,
    Exited { succeeded: bool },
}

impl Lifecycle {
    /// The classification of the end, where the child is known to have
    /// ended.
    pub open spec fn code(self) -> Option<ExitCode> {
        match self {
            Lifecycle::Exited { succeeded } => Some(classified(succeeded)),
            _ => None,
        }
    }

    /// Computes [`Lifecycle::code`].
    pub fn exit_code(self) -> (code: Option<ExitCode>)
        ensures
            code == self.code(),
    {
        match self {
            Lifecycle::Exited { succeeded } => Some(classify(succeeded)),
            _ => None,
        }
    }
}

/// A resize: the new geometry where the primitive accepted it, the
/// controller unchanged and an `Io` failure where it did not.
pub open spec fn resize_step(before: MasterState, rows: u16, cols: u16, reply: Result<(), Seq<char>>) -> (
    MasterState,
    Result<(), FailureView>,
) {
    match reply {
        Ok(_) => (MasterState { rows, cols, writer_taken: before.writer_taken }, Ok(())),
        Err(raw) => (before, Err(reported_view(ErrorKind::Io, raw, unknown_text()))),
    }
}

/// A request for the writer. A controller whose writer is out refuses,
/// whatever the primitive would answer; otherwise the writer is out from
/// the moment the primitive grants it.
pub open spec fn writer_step<T>(before: MasterState, reply: Result<T, Seq<char>>) -> (
    MasterState,
    Result<T, FailureView>,
) {
    if before.writer_taken {
        (before, Err(taken_failure()))
    } else {
        match reply {
            Ok(writer) => (
                MasterState { rows: before.rows, cols: before.cols, writer_taken: true },
                Ok(writer),
            ),
            Err(raw) => (before, Err(reported_view(ErrorKind::Clone, raw, unknown_text()))),
        }
    }
}

/// A poll. A child known to have ended answers from what is known;
/// otherwise the primitive's answer decides, and an observed end is kept.
/// The answer holds whether the process succeeded, if it has ended.
pub open spec fn poll_step(before: Lifecycle, reply: Result<Option<bool>, Seq<char>>) -> (
    Lifecycle,
    Result<Poll, FailureView>,
) {
    match before {
        Lifecycle::Exited { succeeded } => (before, Ok(Poll::Exited(classified(succeeded)))),
        _ => match reply {
            Ok(Some(succeeded)) => (
                Lifecycle::Exited { succeeded },
                Ok(Poll::Exited(classified(succeeded))),
            ),
            Ok(None) => (before, Ok(Poll::StillRunning)),
            Err(raw) => (before, Err(reported_view(ErrorKind::Wait, raw, unknown_text()))),
        },
    }
}

/// A blocking wait, which ends the handle: the classification known or
/// learnt, or a `Wait` failure.
pub open spec fn wait_verdict(before: Lifecycle, reply: Result<bool, Seq<char>>) -> Result<
    ExitCode,
    FailureView,
> {
    match before {
        Lifecycle::Exited { succeeded } => Ok(classified(succeeded)),
        _ => match reply {
            Ok(succeeded) => Ok(classified(succeeded)),
            Err(raw) => Err(reported_view(ErrorKind::Wait, raw, unknown_text())),
        },
    }
}

/// A termination request: a running child is marked once the request is
/// delivered; the request itself observes no end.
pub open spec fn kill_step(before: Lifecycle, reply: Result<(), Seq<char>>) -> (
    Lifecycle,
    Result<(), FailureView>,
) {
    match reply {
        Ok(_) => (
            if before == Lifecycle::Running {
                Lifecycle::KillPending
            } else {
                before
            },
            Ok(()),
        ),
        Err(raw) => (before, Err(reported_view(ErrorKind::Kill, raw, unknown_text()))),
    }
}

/// A poll collapsed to three answers: not alive, alive, or a failure of the
/// same kind without its text.
pub open spec fn collapsed(poll: Result<Poll, FailureView>) -> Result<bool, FailureView> {
    match poll {
        Ok(Poll::Exited(_)) => Ok(false),
        Ok(Poll::StillRunning) => Ok(true),
        Err(f) => Err(FailureView { kind: f.kind, message: None }),
    }
}

/// Computes [`resize_step`].
pub fn resize_outcome(before: MasterState, rows: u16, cols: u16, reply: Result<(), String>) -> (next:
    (MasterState, Result<(), Failure>))
    ensures
        (next.0, outcome_view(next.1)) == resize_step(before, rows, cols, reply_view(reply)),
{
    match reply {
        Ok(_) => (MasterState { rows, cols, writer_taken: before.writer_taken }, Ok(())),
        Err(raw) => (
            before,
            Err(Failure::reported(ErrorKind::Io, raw, ErrorMessage::unknown())),
        ),
    }
}

/// Computes [`writer_step`].
pub fn writer_outcome<T>(before: MasterState, reply: Result<T, String>) -> (next: (
    MasterState,
    Result<T, Failure>,
))
    ensures
        (next.0, outcome_view(next.1)) == writer_step(before, reply_view(reply)),
{
    if before.writer_taken {
        (before, Err(Failure::already_taken()))
    } else {
        match reply {
            Ok(writer) => (
                MasterState { rows: before.rows, cols: before.cols, writer_taken: true },
                Ok(writer),
            ),
            Err(raw) => (
                before,
                Err(Failure::reported(ErrorKind::Clone, raw, ErrorMessage::unknown())),
            ),
        }
    }
}

/// Computes [`poll_step`].
pub fn poll_outcome(before: Lifecycle, reply: Result<Option<bool>, String>) -> (next: (
    Lifecycle,
    Result<Poll, Failure>,
))
    ensures
        (next.0, outcome_view(next.1)) == poll_step(before, reply_view(reply)),
{
    match before {
        Lifecycle::Exited { succeeded } => (before, Ok(Poll::Exited(classify(succeeded)))),
        _ => match reply {
            Ok(Some(succeeded)) => (
                Lifecycle::Exited { succeeded },
                Ok(Poll::Exited(classify(succeeded))),
            ),
            Ok(None) => (before, Ok(Poll::StillRunning)),
            Err(raw) => (
                before,
                Err(Failure::reported(ErrorKind::Wait, raw, ErrorMessage::unknown())),
            ),
        },
    }
}

/// Computes [`wait_verdict`].
pub fn wait_outcome(before: Lifecycle, reply: Result<bool, String>) -> (outcome: Result<
    ExitCode,
    Failure,
>)
    ensures
        outcome_view(outcome) == wait_verdict(before, reply_view(reply)),
{
    match before {
        Lifecycle::Exited { succeeded } => Ok(classify(succeeded)),
        _ => match reply {
            Ok(succeeded) => Ok(classify(succeeded)),
            Err(raw) => Err(Failure::reported(ErrorKind::Wait, raw, ErrorMessage::unknown())),
        },
    }
}

/// Computes [`kill_step`].
pub fn kill_outcome(before: Lifecycle, reply: Result<(), String>) -> (next: (
    Lifecycle,
    Result<(), Failure>,
))
    ensures
        (next.0, outcome_view(next.1)) == kill_step(before, reply_view(reply)),
{
    match reply {
        Ok(_) => {
            let after = match before {
                Lifecycle::Running => Lifecycle::KillPending,
                _ => before,
            };
            (after, Ok(()))
        },
        Err(raw) => (
            before,
            Err(Failure::reported(ErrorKind::Kill, raw, ErrorMessage::unknown())),
        ),
    }
}

/// Computes [`collapsed`].
pub fn liveness(poll: Result<Poll, Failure>) -> (alive: Result<bool, Failure>)
    ensures
        outcome_view(alive) == collapsed(outcome_view(poll)),
{
    match poll {
        Ok(Poll::Exited(_)) => Ok(false),
        Ok(Poll::StillRunning) => Ok(true),
        Err(f) => Err(Failure::silent(f.kind)),
    }
}

} // verus!
