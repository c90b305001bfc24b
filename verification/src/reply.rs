//! Telling replies apart: an error that the service reports, the result that was asked
//! for, or neither.

use crate::decode::{nested, read_nested, Decode};
use crate::error::{ClassifiedError, ParseFailure, ServiceError, TransportFailure};
use crate::json::{content, describe, get_member, member, parsed, read_value, JsonView};
use vstd::prelude::*;

verus! {

/// A record that a call can ask for. A reply holds it in an object under `user`, under the
/// record's own name.
pub trait Payload: Decode {
    /// The name under which a reply holds the record.
    spec fn resource() -> Seq<char>;

    /// The name under which a reply holds the record.
    fn resource_name() -> (name: &'static str)
        ensures
            name@ == Self::resource(),
    ;
}

/// The record that a reply holds, where the reply has the shape of a result.
pub open spec fn payload_of<R: Payload>(json: JsonView) -> Option<R::V> {
    match member(json, "user"@) {
        Some(user) => nested::<R>(user, R::resource()),
        None => None,
    }
}

/// Whether `r` is what a reply with the given JSON value comes to. An error of the service
/// goes first: a reply that has its shape is that error, whatever else it holds. Otherwise
/// the reply is the result asked for, where it has that shape. Otherwise it is not recognised.
pub open spec fn classified<R: Payload>(json: JsonView, r: Result<R, ClassifiedError>) -> bool {
    match ServiceError::shape(json) {
        Some(error) => r matches Err(ClassifiedError::Service(found)) && found@ == error,
        None => match payload_of::<R>(json) {
            Some(payload) => r matches Ok(found) && found@ == payload,
            None => r == Err::<R, ClassifiedError>(
                ClassifiedError::Parsing(ParseFailure::Unrecognised),
            ),
        },
    }
}

/// Whether `r` is what a reply with the given body comes to: a body that is JSON text goes by
/// its value, and one that is not is malformed, with the parser's words for it.
pub open spec fn decoded<R: Payload>(body: Seq<char>, r: Result<R, ClassifiedError>) -> bool {
    match parsed(body) {
        Ok(json) => classified(json, r),
        Err(diagnostic) => r matches Err(ClassifiedError::Parsing(ParseFailure::Malformed(found)))
            && found@ == diagnostic,
    }
}

/// Whether `r` is what a call comes to, given what came back from the service: a failure of
/// the transport is handed on as it is, and a body is read.
pub open spec fn answers<R: Payload>(
    reply: Result<String, TransportFailure>,
    r: Result<R, ClassifiedError>,
) -> bool {
    match reply {
        Ok(body) => decoded(body@, r),
        Err(failure) => r == Err::<R, ClassifiedError>(ClassifiedError::Transport(failure)),
    }
}

/// Reads the record that a reply holds.
pub fn read_payload<R: Payload>(value: &serde_json::Value) -> (r: Option<R>)
    ensures
        match r {
            Some(payload) => payload_of::<R>(content(*value)) == Some(payload@),
            None => payload_of::<R>(content(*value)) is None,
        },
{
    match get_member(value, "user") {
        Some(user) => read_nested::<R>(user, R::resource_name()),
        None => None,
    }
}

/// Tells what a reply with a given JSON value comes to.
pub fn classify<R: Payload>(value: &serde_json::Value) -> (r: Result<R, ClassifiedError>)
    ensures
        classified(content(*value), r),
{
    match ServiceError::decode(value) {
        Some(error) => Err(ClassifiedError::Service(error)),
        None => match read_payload::<R>(value) {
            Some(payload) => Ok(payload),
            None => Err(ClassifiedError::Parsing(ParseFailure::Unrecognised)),
        },
    }
}

/// Tells what a reply with a given body comes to.
pub fn decode_body<R: Payload>(body: &str) -> (r: Result<R, ClassifiedError>)
    ensures
        decoded(body@, r),
{
    match read_value(body) {
        Ok(value) => classify(&value),
        Err(error) => Err(ClassifiedError::Parsing(ParseFailure::Malformed(describe(&error)))),
    }
}

} // verus!
