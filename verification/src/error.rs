//! The ways in which a call fails.

use crate::decode::Decode;
use crate::json::{get_integer, get_member, integer_member, text_member, text_of, JsonView};
use vstd::prelude::*;

verus! {

/// Why no reply came back from the service.
#[derive(Debug, Clone, PartialEq, Eq)]
pub enum TransportFailure {
    /// The connection failed; the text says how.
    Network(String),
    /// A reply came with a status outside 200 to 299.
    Status(u16),
    /// No reply came in time.
    Timeout,
}

/// An error that the service reports in place of a result.
#[derive(Debug, Clone, PartialEq, Eq)]
pub struct ServiceError {
    /// The service's number for the error.
    pub code: i64,
    /// The service's words for it.
    pub message: String,
}

/// What a [`ServiceError`] holds.
pub struct ServiceErrorView {
    pub code: i64,
    pub message: Seq<char>,
}

impl View for ServiceError {
    type V = ServiceErrorView;

    open spec fn view(&self) -> ServiceErrorView {
        ServiceErrorView { code: self.code, message: self.message@ }
    }
}

impl Decode for ServiceError {
    /// An object whose member `error` is a whole number and whose member `message` is a string.
    open spec fn shape(json: JsonView) -> Option<ServiceErrorView> {
        match (integer_member(json, "error"@), text_member(json, "message"@)) {
            (Some(code), Some(message)) => Some(ServiceErrorView { code, message }),
            _ => None,
        }
    }

    fn decode(value: &serde_json::Value) -> (r: Option<ServiceError>) {
        let code = get_integer(get_member(value, "error")?)?;
        let message = text_of(value, "message")?;
        Some(ServiceError { code, message })
    }
}

/// Why a reply could not be read.
#[derive(Debug, Clone, PartialEq, Eq)]
pub enum ParseFailure {
    /// The reply is no JSON text; the text is the parser's diagnostic.
    Malformed(String),
    /// The reply is JSON, but neither an error of the service nor the result asked for.
    Unrecognised,
}

/// Why a call gave no result.
#[derive(Debug, Clone, PartialEq, Eq)]
pub enum ClassifiedError {
    /// No reply came back.
    Transport(TransportFailure),
    /// The service reported an error.
    Service(ServiceError),
    /// The reply could not be read.
    Parsing(ParseFailure),
}

/// What comes of a request that ended with a given status and body: the body where the
/// status is one of 200 to 299, and a failure that names the status otherwise.
pub fn received(status: u16, body: String) -> (reply: Result<String, TransportFailure>)
    ensures
        reply == if 200 <= status <= 299 {
            Ok::<String, TransportFailure>(body)
        } else {
            Err::<String, TransportFailure>(TransportFailure::Status(status))
        },
{
    if 200 <= status && status <= 299 {
        Ok(body)
    } else {
        Err(TransportFailure::Status(status))
    }
}

} // verus!
