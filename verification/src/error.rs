//! What can go wrong.

use vstd::prelude::*;

use crate::i18n::Messages;
use crate::text::owned;

verus! {

/// Why git did not start. That is about the environment, not about what git was to do.
#[derive(Debug, PartialEq, Eq)]
pub enum StartFailure {
    /// There is no git.
    GitNotFound,
    /// The system refused to start it.
    SpawnFailed { args: String, reason: String },
}

/// How a run of git ended.
#[derive(Debug, PartialEq, Eq)]
pub enum RunOutcome {
    /// It exited with zero.
    Succeeded,
    /// It exited otherwise, having said why.
    Failed,
    /// It did not start.
    NotStarted(StartFailure),
}

/// Why an operation did not go through.
#[derive(Debug, PartialEq, Eq)]
pub enum Error {
    /// A reason, in the language of the messages.
    Explained(String),
    /// Git did not start.
    NotStarted { explanation: String, cause: StartFailure },
    /// The configured number of jobs is no positive number.
    InvalidFetchJobs { value: String },
    /// A line of `gh` has other fields than were asked for.
    GhOutputMalformed { expected: usize, found: usize },
    /// The user did not agree.
    Cancelled,
    /// The repository has no work tree.
    NoWorktree,
}

impl Error {
    /// Whether this error gives `text` as its reason.
    pub open spec fn says(self, text: Seq<char>) -> bool {
        self matches Error::Explained(reason) && reason@ == text
    }

    /// How the error is told.
    pub open spec fn message_text(self, messages: Messages) -> Seq<char> {
        match self {
            Error::Explained(reason) => reason@,
            Error::NotStarted { explanation, .. } => explanation@,
            Error::InvalidFetchJobs { value } => messages.common().invalid_fetch_jobs_text(value@),
            Error::GhOutputMalformed { expected, found } => {
                messages.common().gh_output_malformed_text(expected, found)
            },
            Error::Cancelled => messages.confirm().cancelled_text(),
            Error::NoWorktree => messages.common().no_worktree_text(),
        }
    }

    /// Tells the error.
    pub fn message(&self, messages: Messages) -> (text: String)
        ensures
            text@ == self.message_text(messages),
    {
        match self {
            Error::Explained(reason) => reason.clone(),
            Error::NotStarted { explanation, .. } => explanation.clone(),
            Error::InvalidFetchJobs { value } => messages.common().invalid_fetch_jobs(
                value.as_str(),
            ),
            Error::GhOutputMalformed { expected, found } => messages.common().gh_output_malformed(
                *expected,
                *found,
            ),
            Error::Cancelled => owned(messages.confirm().cancelled()),
            Error::NoWorktree => owned(messages.common().no_worktree()),
        }
    }
}

/// A reason is told as it is, and so is what was tried where git did not start.
pub proof fn law_a_reason_is_told_as_it_is(error: &Error, messages: Messages, text: String)
    requires
        call_ensures(Error::message, (error, messages), text),
    ensures
        error matches Error::Explained(reason) ==> text@ == reason@,
        error matches Error::NotStarted { explanation, .. } ==> text@ == explanation@,
        error is Cancelled ==> text@ == messages.confirm().cancelled_text(),
        error is NoWorktree ==> text@ == messages.common().no_worktree_text(),
        error matches Error::InvalidFetchJobs { value } ==> text@
            == messages.common().invalid_fetch_jobs_text(value@),
        error matches Error::GhOutputMalformed { expected, found } ==> text@
            == messages.common().gh_output_malformed_text(*expected, *found),
{
}

} // verus!
