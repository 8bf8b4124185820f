//! The errors of the device client.
use crate::http::HttpFailure;
use vstd::prelude::*;
use vstd::string::*;

verus! {

/// What can go wrong between the bridge and the device.
#[derive(Debug)]
pub enum Error {
    /// The session token went away between login and query.
    TokenExpired,
    /// The device gave no session for the password.
    WrongPassword,
    /// The device did not accept the session token.
    AccessDenied,
    /// The request did not come back with a success.
    RequestFailed(HttpFailure),
    /// The circuit breaker is open: no request was made.
    RequestRejected,
    /// The device cannot answer a query of this shape.
    QueryImpossible,
    /// The answer is no JSON text; the words are those of the JSON reader.
    ResponseJsonError(String),
    /// The answer does not hold the value that was asked for.
    ValueParseError(String),
}

/// An error of the device client, as a mathematical value.
pub enum ErrorModel {
    TokenExpired,
    WrongPassword,
    AccessDenied,
    RequestFailed(HttpFailure),
    RequestRejected,
    QueryImpossible,
    ResponseJsonError,
    ValueParseError(Seq<char>),
}

impl ErrorModel {
    /// Whether another attempt may mend the error: a transport failure that
    /// is no client error, and the two errors that a fresh login mends.
    pub open spec fn retryable(self) -> bool {
        match self {
            ErrorModel::RequestFailed(failure) => !failure.client_error(),
            ErrorModel::AccessDenied => true,
            ErrorModel::TokenExpired => true,
            _ => false,
        }
    }

    /// Whether the error speaks against the health of the device: only a
    /// transport failure that is no client error does.
    pub open spec fn recorded(self) -> bool {
        match self {
            ErrorModel::RequestFailed(failure) => !failure.client_error(),
            _ => false,
        }
    }
}

impl View for Error {
    type V = ErrorModel;

    open spec fn view(&self) -> ErrorModel {
        match self {
            Error::TokenExpired => ErrorModel::TokenExpired,
            Error::WrongPassword => ErrorModel::WrongPassword,
            Error::AccessDenied => ErrorModel::AccessDenied,
            Error::RequestFailed(failure) => ErrorModel::RequestFailed(*failure),
            Error::RequestRejected => ErrorModel::RequestRejected,
            Error::QueryImpossible => ErrorModel::QueryImpossible,
            Error::ResponseJsonError(_) => ErrorModel::ResponseJsonError,
            Error::ValueParseError(message) => ErrorModel::ValueParseError(message@),
        }
    }
}

impl Error {
    /// The error in words.
    pub open spec fn message_text(&self) -> Seq<char> {
        match self {
            Error::TokenExpired => "Authentication failed: token expired"@,
            Error::WrongPassword => "Authentication failed: wrong password"@,
            Error::AccessDenied
                => "Authorization failed: access denied (token not allowed or expired)"@,
            Error::RequestFailed(failure) => "Request failed: "@ + failure.message_text(),
            Error::RequestRejected => "Request rejected: circuit breaker open"@,
            Error::QueryImpossible => "Query failed: impossible query"@,
            Error::ResponseJsonError(words) => "Response JSON error: "@ + words@,
            Error::ValueParseError(words) => "Value parse error: "@ + words@,
        }
    }

    /// The error in words.
    pub fn message(&self) -> (text: String)
        ensures
            text@ == self.message_text(),
    {
        match self {
            Error::TokenExpired => String::from_str("Authentication failed: token expired"),
            Error::WrongPassword => String::from_str("Authentication failed: wrong password"),
            Error::AccessDenied => String::from_str(
                "Authorization failed: access denied (token not allowed or expired)",
            ),
            Error::RequestFailed(failure) => {
                let mut text = String::from_str("Request failed: ");
                text.append(failure.message().as_str());
                text
            },
            Error::RequestRejected => String::from_str("Request rejected: circuit breaker open"),
            Error::QueryImpossible => String::from_str("Query failed: impossible query"),
            Error::ResponseJsonError(words) => {
                let mut text = String::from_str("Response JSON error: ");
                text.append(words.as_str());
                text
            },
            Error::ValueParseError(words) => {
                let mut text = String::from_str("Value parse error: ");
                text.append(words.as_str());
                text
            },
        }
    }
}

/// Every error that the breaker counts may be retried.
pub proof fn lemma_recorded_is_retryable(error: ErrorModel)
    requires
        error.recorded(),
    ensures
        error.retryable(),
{
}

} // verus!
