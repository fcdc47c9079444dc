//! The errors a request can end in, and how each is shown to the client.

use vstd::prelude::*;
use vstd::string::StringExecFns;

verus! {

/// HTTP status of a successful response.
pub const STATUS_OK: u16 = 200;

/// HTTP status of a response to a request the client got wrong.
pub const STATUS_BAD_REQUEST: u16 = 400;

/// A failure of one request. Every kind carries a human-readable message.
#[derive(Debug, Clone)]
pub enum AppError {
    /// The client sent parameters that the validation rule rejects.
    InvalidInput(String),
}

/// A failure of one request, as mathematics sees it.
pub enum ErrorModel {
    InvalidInput(Seq<char>),
}

impl ErrorModel {
    /// The message the error was made with, without the prefix of its kind.
    pub open spec fn detail(self) -> Seq<char> {
        match self {
            ErrorModel::InvalidInput(detail) => detail,
        }
    }

    /// The text shown to the client: the prefix of the kind, then the detail.
    pub open spec fn text(self) -> Seq<char> {
        match self {
            ErrorModel::InvalidInput(detail) => "Invalid input: "@ + detail,
        }
    }

    /// The HTTP status that stands for this kind of error.
    pub open spec fn status(self) -> u16 {
        match self {
            ErrorModel::InvalidInput(_) => STATUS_BAD_REQUEST,
        }
    }
}

impl AppError {
    pub open spec fn view(self) -> ErrorModel {
        match self {
            AppError::InvalidInput(detail) => ErrorModel::InvalidInput(detail@),
        }
    }

    /// The error for parameters that the validation rule rejects.
    pub fn invalid_input(detail: &str) -> (error: AppError)
        ensures
            error@ == ErrorModel::InvalidInput(detail@),
    {
        AppError::InvalidInput(detail.to_owned())
    }

    /// The human-readable message, kind prefix included.
    pub fn message(&self) -> (text: String)
        ensures
            text@ == self@.text(),
    {
        match self {
            AppError::InvalidInput(detail) => {
                String::from_str("Invalid input: ").concat(detail.as_str())
            },
        }
    }

    /// The message without the kind prefix, as recorded on a span.
    pub fn description(&self) -> (text: String)
        ensures
            text@ == self@.detail(),
    {
        match self {
            AppError::InvalidInput(detail) => detail.clone(),
        }
    }

    /// The HTTP status code the error is answered with.
    pub fn status_code(&self) -> (code: u16)
        ensures
            code == self@.status(),
    {
        match self {
            AppError::InvalidInput(_) => STATUS_BAD_REQUEST,
        }
    }

    /// A copy of the error.
    pub fn duplicate(&self) -> (copy: AppError)
        ensures
            copy@ == self@,
    {
        match self {
            AppError::InvalidInput(detail) => AppError::InvalidInput(detail.clone()),
        }
    }
}

} // verus!
