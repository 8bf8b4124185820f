//! What the clients read of an HTTP exchange that failed.
use crate::text::{decimal_digits, u64_to_string};
use vstd::prelude::*;
use vstd::string::*;

verus! {

/// A request that did not come back with a success: the status that the
/// endpoint answered with, or none where no answer came (a refused
/// connection, a timeout).
#[derive(Clone, Copy, Debug, PartialEq, Eq, Structural)]
pub struct HttpFailure {
    pub status: Option<u16>,
}

impl HttpFailure {
    /// The endpoint answered with a status from 400 to 499: the request
    /// itself was at fault.
    pub open spec fn client_error(self) -> bool {
        self.status matches Some(status) && 400 <= status < 500
    }

    /// The failure in words.
    pub open spec fn message_text(self) -> Seq<char> {
        match self.status {
            Some(status) => "HTTP status "@ + decimal_digits(status as nat),
            None => "no answer"@,
        }
    }

    /// The failure in words.
    pub fn message(&self) -> (text: String)
        ensures
            text@ == self.message_text(),
    {
        match self.status {
            Some(status) => {
                let mut text = String::from_str("HTTP status ");
                text.append(u64_to_string(status as u64).as_str());
                text
            },
            None => String::from_str("no answer"),
        }
    }

    /// Whether the failure is an HTTP 4xx client error.
    pub fn is_client_error(&self) -> (r: bool)
        ensures
            r == self.client_error(),
    {
        match self.status {
            Some(status) => 400 <= status && status < 500,
            None => false,
        }
    }
}

} // verus!
