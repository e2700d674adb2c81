//! The ways in which an invocation fails, and what the user is told.

use vstd::prelude::*;
use vstd::string::*;

use crate::text::{contains_text, join, lemma_contains_after_prefix, occurs_at};

verus! {

/// Why an invocation ended unsuccessfully.
#[derive(Clone, Debug, PartialEq, Eq)]
pub enum Failure {
    /// The requested mode is not one of the four that exist.
    UnsupportedMode,
    /// The backend refused or failed a call; the text is the backend's own.
    Backend(String),
    /// The self-test read back something other than what it had written.
    ValueMismatch,
}

/// A [`Failure`] with its text as a sequence of characters.
pub enum FailureView {
    UnsupportedMode,
    Backend(Seq<char>),
    ValueMismatch,
}

impl View for Failure {
    type V = FailureView;

    open spec fn view(&self) -> FailureView {
        match self {
            Failure::UnsupportedMode => FailureView::UnsupportedMode,
            Failure::Backend(text) => FailureView::Backend(text@),
            Failure::ValueMismatch => FailureView::ValueMismatch,
        }
    }
}

/// The exit status of an invocation that succeeded.
pub const EXIT_SUCCESS: u8 = 0;

/// The exit status of an invocation that reported a failure.
pub const EXIT_FAILURE: u8 = 1;

/// What every reported failure starts with on standard output.
pub open spec fn report_prefix() -> Seq<char> {
    "Error: "@
}

impl FailureView {
    /// The one-line description of the failure.
    pub open spec fn message(self) -> Seq<char> {
        match self {
            FailureView::UnsupportedMode => "This `--mode` value is not supported."@,
            FailureView::Backend(text) => text,
            FailureView::ValueMismatch => "Wrong value"@,
        }
    }

    /// The line that reports the failure to the user.
    pub open spec fn report_line(self) -> Seq<char> {
        report_prefix() + self.message()
    }
}

impl Failure {
    /// The one-line description of the failure.
    pub fn message(&self) -> (text: String)
        ensures
            text@ == self@.message(),
    {
        match self {
            Failure::UnsupportedMode => String::from_str("This `--mode` value is not supported."),
            Failure::Backend(text) => text.clone(),
            Failure::ValueMismatch => String::from_str("Wrong value"),
        }
    }

    /// The line that reports the failure to the user.
    pub fn report_line(&self) -> (line: String)
        ensures
            line@ == self@.report_line(),
    {
        let message = self.message();
        join("Error: ", message.as_str())
    }
}

/// The exit status that an outcome maps to: zero for success, one for any
/// failure.
pub open spec fn exit_status(failed: bool) -> u8 {
    if failed {
        EXIT_FAILURE
    } else {
        EXIT_SUCCESS
    }
}

/// The description of an unsupported mode says that it is "not supported",
/// and so does the line that reports it.
pub proof fn lemma_unsupported_mode_says_so()
    ensures
        contains_text(FailureView::UnsupportedMode.message(), "not supported"@),
        contains_text(FailureView::UnsupportedMode.report_line(), "not supported"@),
{
    reveal_strlit("This `--mode` value is not supported.");
    reveal_strlit("not supported");
    reveal_strlit("Error: ");
    let message = FailureView::UnsupportedMode.message();
    let needle = "not supported"@;
    assert(message.subrange(23, 36) =~= needle);
    assert(occurs_at(message, needle, 23));
    lemma_contains_after_prefix(report_prefix(), message, needle);
}

} // verus!
