//! The host-side save handler's decisions. The handler prompts for a
//! destination with a native picker, then writes the request's bytes to the
//! chosen path. The picker and the file I/O run in the shell, off the
//! page's execution context; this module decides each step and fixes the
//! outcome reported back over the bridge.

use vstd::prelude::*;
use vstd::string::StringExecFns;

verus! {

/// The outcome reported back to the page for one save request. User
/// cancellation of the destination picker is a success with no file
/// written, not an error.
#[derive(Clone, Debug, PartialEq, Eq)]
pub enum SaveOutcome {
    /// The request was serviced: either the file was written in full, or
    /// the user cancelled the picker and nothing was written.
    Success,
    /// Path resolution, file creation or the write failed; the message
    /// says which.
    Failure { message: String },
}

/// What the shell must do next after the destination picker returns.
#[derive(Clone, Debug, PartialEq, Eq)]
pub enum SaveStep {
    /// Nothing further: report this outcome.
    Done { outcome: SaveOutcome },
    /// Write the request's bytes, verbatim and in full, to this path.
    WriteTo { path: String },
}

/// What the shell observed when it tried to create and write the file.
#[derive(Clone, Debug, PartialEq, Eq)]
pub enum WriteAttempt {
    /// Every byte of the payload reached the file.
    AllWritten,
    /// The file could not be created; `detail` is the OS error text.
    CreateFailed { detail: String },
    /// The write stopped short; `detail` is the OS error text. A partial
    /// write is not rolled back.
    WriteFailed { detail: String },
}

/// Decide the step after the destination picker returns: a cancelled
/// picker ends the request successfully with no write at all; a chosen
/// destination is written to.
pub fn on_destination_chosen(picked: Option<String>) -> (step: SaveStep)
    ensures
        picked is None ==> step == (SaveStep::Done { outcome: SaveOutcome::Success }),
        picked matches Some(p) ==> (step matches SaveStep::WriteTo { path } && path@ == p@),
{
    match picked {
        None => SaveStep::Done { outcome: SaveOutcome::Success },
        Some(path) => SaveStep::WriteTo { path },
    }
}

/// The failure message reported when the file could not be created.
pub open spec fn create_failure_message(detail: Seq<char>) -> Seq<char> {
    "Failed while creating file: "@ + detail
}

/// The failure message reported when the write stopped short.
pub open spec fn write_failure_message(detail: Seq<char>) -> Seq<char> {
    "Failed while saving: "@ + detail
}

/// Fix the outcome of a save request from the shell's write attempt.
pub fn on_write_attempt(attempt: &WriteAttempt) -> (outcome: SaveOutcome)
    ensures
        attempt is AllWritten ==> outcome == SaveOutcome::Success,
        attempt matches WriteAttempt::CreateFailed { detail } ==> (outcome
            matches SaveOutcome::Failure { message } && message@ == create_failure_message(
            detail@,
        )),
        attempt matches WriteAttempt::WriteFailed { detail } ==> (outcome
            matches SaveOutcome::Failure { message } && message@ == write_failure_message(
            detail@,
        )),
{
    match attempt {
        WriteAttempt::AllWritten => SaveOutcome::Success,
        WriteAttempt::CreateFailed { detail } => SaveOutcome::Failure {
            message: String::from_str("Failed while creating file: ").concat(detail.as_str()),
        },
        WriteAttempt::WriteFailed { detail } => SaveOutcome::Failure {
            message: String::from_str("Failed while saving: ").concat(detail.as_str()),
        },
    }
}

} // verus!
