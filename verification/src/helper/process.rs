//! One run of the helper as a child process, as a sequence of decisions: each
//! call looks at what the last step gave and says what to do next.
use vstd::prelude::*;

use crate::errors::TealDriveError;
use crate::helper::types::HelperResponse;

verus! {

/// How the child looked when it was polled.
#[derive(Debug, Clone, Copy, PartialEq, Eq)]
pub enum ChildStatus {
    /// Polling failed.
    Unknown,
    /// It has exited; `success` for a zero exit status.
    Exited { success: bool },
    /// It still runs, this long after the request was handed over.
    Running { elapsed_nanos: u128 },
}

/// What reading the child's answer gave.
#[derive(Debug)]
pub enum AnswerRead {
    /// The child's output was not open.
    NoOutput,
    /// The output did not hold a well-formed answer.
    Malformed,
    Answer(HelperResponse),
}

/// What the last step of a run gave.
#[derive(Debug)]
pub enum HelperRunEvent {
    /// Encoding the request: fine, or why not.
    Encoded(Result<(), TealDriveError>),
    /// Whether the child was started.
    Spawned(bool),
    /// Whether the request went into the child's input, which is then closed.
    RequestWritten(bool),
    Polled(ChildStatus),
    AnswerRead(AnswerRead),
}

/// What to do next in a run.
#[derive(Debug)]
pub enum HelperRunAction {
    /// Start the child with its input and output piped.
    Spawn,
    /// Write the encoded request into the child's input and close it; the
    /// clock of the timeout starts then.
    WriteRequest,
    /// Look whether the child has exited.
    Poll,
    /// Wait a moment, then look again.
    WaitThenPoll,
    /// Read the child's answer from its output.
    ReadAnswer,
    /// Kill the child, wait for it, and fail with this error.
    KillThenFail(TealDriveError),
    /// The run is over, with this outcome.
    Finish(Result<HelperResponse, TealDriveError>),
}

/// The step after `event`, given how long the child may run.
pub fn helper_run_next(event: HelperRunEvent, timeout_nanos: u128) -> (next: HelperRunAction)
    ensures
        match event {
            HelperRunEvent::Encoded(Err(e)) => next == HelperRunAction::Finish(Err(e)),
            HelperRunEvent::Encoded(Ok(())) => next is Spawn,
            HelperRunEvent::Spawned(started) => if started {
                next is WriteRequest
            } else {
                next == HelperRunAction::Finish(Err(TealDriveError::HelperSpawnFailed))
            },
            HelperRunEvent::RequestWritten(written) => if written {
                next is Poll
            } else {
                next == HelperRunAction::Finish(Err(TealDriveError::HelperStdinFailed))
            },
            HelperRunEvent::Polled(ChildStatus::Unknown) => next == HelperRunAction::Finish(
                Err(TealDriveError::HelperNonZeroExit),
            ),
            HelperRunEvent::Polled(ChildStatus::Exited { success }) => if success {
                next is ReadAnswer
            } else {
                next == HelperRunAction::Finish(Err(TealDriveError::HelperNonZeroExit))
            },
            HelperRunEvent::Polled(ChildStatus::Running { elapsed_nanos }) => if elapsed_nanos
                >= timeout_nanos {
                next == HelperRunAction::KillThenFail(TealDriveError::HelperTimeout)
            } else {
                next is WaitThenPoll
            },
            HelperRunEvent::AnswerRead(AnswerRead::NoOutput) => next == HelperRunAction::Finish(
                Err(TealDriveError::HelperStdoutFailed),
            ),
            HelperRunEvent::AnswerRead(AnswerRead::Malformed) => next == HelperRunAction::Finish(
                Err(TealDriveError::HelperMalformedResponse),
            ),
            HelperRunEvent::AnswerRead(AnswerRead::Answer(r)) => next == HelperRunAction::Finish(
                Ok(r),
            ),
        },
{
    match event {
        HelperRunEvent::Encoded(Err(e)) => HelperRunAction::Finish(Err(e)),
        HelperRunEvent::Encoded(Ok(())) => HelperRunAction::Spawn,
        HelperRunEvent::Spawned(started) => {
            if started {
                HelperRunAction::WriteRequest
            } else {
                HelperRunAction::Finish(Err(TealDriveError::HelperSpawnFailed))
            }
        },
        HelperRunEvent::RequestWritten(written) => {
            if written {
                HelperRunAction::Poll
            } else {
                HelperRunAction::Finish(Err(TealDriveError::HelperStdinFailed))
            }
        },
        HelperRunEvent::Polled(status) => match status {
            ChildStatus::Unknown => HelperRunAction::Finish(Err(TealDriveError::HelperNonZeroExit)),
            ChildStatus::Exited { success } => {
                if success {
                    HelperRunAction::ReadAnswer
                } else {
                    HelperRunAction::Finish(Err(TealDriveError::HelperNonZeroExit))
                }
            },
            ChildStatus::Running { elapsed_nanos } => {
                if elapsed_nanos >= timeout_nanos {
                    HelperRunAction::KillThenFail(TealDriveError::HelperTimeout)
                } else {
                    HelperRunAction::WaitThenPoll
                }
            },
        },
        HelperRunEvent::AnswerRead(read) => match read {
            AnswerRead::NoOutput => HelperRunAction::Finish(Err(TealDriveError::HelperStdoutFailed)),
            AnswerRead::Malformed => HelperRunAction::Finish(
                Err(TealDriveError::HelperMalformedResponse),
            ),
            AnswerRead::Answer(r) => HelperRunAction::Finish(Ok(r)),
        },
    }
}

} // verus!
