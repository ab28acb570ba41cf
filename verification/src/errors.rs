//! The errors that the platform's operations report.

use vstd::prelude::*;
use vstd::string::*;

verus! {

/// An error of an action or of the service that runs it.
#[derive(Debug, Clone, PartialEq, Eq)]
pub enum AppError {
    /// The payload could not be read as the request it should hold.
    InvalidPayload,
    /// The action ran and failed; the text says why.
    Execution(String),
    /// No action is registered under the requested name.
    ActionNotFound(String),
}

/// The content of an [`AppError`].
pub enum ErrorView {
    InvalidPayload,
    Execution(Seq<char>),
    ActionNotFound(Seq<char>),
}

impl View for AppError {
    type V = ErrorView;

    open spec fn view(&self) -> ErrorView {
        match self {
            AppError::InvalidPayload => ErrorView::InvalidPayload,
            AppError::Execution(m) => ErrorView::Execution(m@),
            AppError::ActionNotFound(n) => ErrorView::ActionNotFound(n@),
        }
    }
}

impl ErrorView {
    /// The text under which the error is reported to a client.
    pub open spec fn message(self) -> Seq<char> {
        match self {
            ErrorView::InvalidPayload => "invalid payload"@,
            ErrorView::Execution(m) => "execution failed: "@ + m,
            ErrorView::ActionNotFound(n) => "action not found: "@ + n,
        }
    }
}

impl AppError {
    /// The text under which the error is reported to a client.
    pub fn message(&self) -> (m: String)
        ensures
            m@ == self@.message(),
    {
        match self {
            AppError::InvalidPayload => String::from_str("invalid payload"),
            AppError::Execution(m) => String::from_str("execution failed: ").concat(m.as_str()),
            AppError::ActionNotFound(n) => String::from_str("action not found: ").concat(
                n.as_str(),
            ),
        }
    }
}

/// Every error is reported with a text that is not empty.
pub proof fn law_error_message_not_empty(e: ErrorView)
    ensures
        e.message().len() > 0,
{
    reveal_strlit("invalid payload");
    reveal_strlit("execution failed: ");
    reveal_strlit("action not found: ");
}

} // verus!
