//! The errors of the hub client.
use crate::http::HttpFailure;
use vstd::prelude::*;
use vstd::string::*;

verus! {

/// What can go wrong between the bridge and the hub.
#[derive(Debug)]
pub enum Error {
    /// The request did not come back with a success.
    RequestFailed(HttpFailure),
    /// The circuit breaker is open: no request was made.
    RequestRejected,
    /// The state could not be written as JSON. The writer in use does not
    /// fail on a state; the error stands for one that does.
    JsonSerializationFailed(String),
}

/// An error of the hub client, as a mathematical value.
pub enum ErrorModel {
    RequestFailed(HttpFailure),
    RequestRejected,
    JsonSerializationFailed,
}

impl ErrorModel {
    /// Whether another attempt may mend the error: only a transport failure
    /// that is no client error.
    pub open spec fn retryable(self) -> bool {
        match self {
            ErrorModel::RequestFailed(failure) => !failure.client_error(),
            ErrorModel::RequestRejected => false,
            ErrorModel::JsonSerializationFailed => false,
        }
    }

    /// Whether the error speaks against the health of the hub: only a
    /// transport failure that is no client error.
    pub open spec fn recorded(self) -> bool {
        match self {
            ErrorModel::RequestFailed(failure) => !failure.client_error(),
            ErrorModel::RequestRejected => false,
            ErrorModel::JsonSerializationFailed => false,
        }
    }
}

impl View for Error {
    type V = ErrorModel;

    open spec fn view(&self) -> ErrorModel {
        match self {
            Error::RequestFailed(failure) => ErrorModel::RequestFailed(*failure),
            Error::RequestRejected => ErrorModel::RequestRejected,
            Error::JsonSerializationFailed(_) => ErrorModel::JsonSerializationFailed,
        }
    }
}

impl Error {
    /// The error in words.
    pub open spec fn message_text(&self) -> Seq<char> {
        match self {
            Error::RequestFailed(failure) => "Request failed: "@ + failure.message_text(),
            Error::RequestRejected => "Request rejected by the circuit breaker"@,
            Error::JsonSerializationFailed(words) => "JSON serialization failed: "@ + words@,
        }
    }

    /// The error in words.
    pub fn message(&self) -> (text: String)
        ensures
            text@ == self.message_text(),
    {
        match self {
            Error::RequestFailed(failure) => {
                let mut text = String::from_str("Request failed: ");
                text.append(failure.message().as_str());
                text
            },
            Error::RequestRejected => String::from_str("Request rejected by the circuit breaker"),
            Error::JsonSerializationFailed(words) => {
                let mut text = String::from_str("JSON serialization failed: ");
                text.append(words.as_str());
                text
            },
        }
    }
}

} // verus!
