//! Failure responses: `{"status":"failed","code":<code>,"message":"<reason>[: <message>]"}`.
use vstd::prelude::*;
use vstd::string::*;
use crate::json::{failure_body, failure_envelope, json_quoted, json_string};
use crate::response::{gen_response, JsonRespError, JsonResponse};
use crate::status::{canonical_reason, reason_of, status_in_range};

verus! {

/// The message of a failure envelope: the reason phrase alone, or
/// `<reason>: <message>` when a message is given.
pub open spec fn message_text(reason: Seq<char>, message: Option<Seq<char>>) -> Seq<char> {
    match message {
        None => reason,
        Some(m) => reason + ": "@ + m,
    }
}

/// Joins the reason phrase and the caller's message, if any.
pub fn failure_message(reason: &str, message: Option<&str>) -> (r: String)
    ensures
        r@ == message_text(reason@, match message { None => None, Some(m) => Some(m@) }),
{
    let mut text = String::from_str(reason);
    match message {
        None => {},
        Some(m) => {
            text.append(": ");
            text.append(m);
        },
    }
    text
}

/// What a failure response with `code` around the JSON string literal `message`
/// comes to: built exactly when `code` is in range, and otherwise a build error.
pub open spec fn failure_outcome(code: u16, message: Seq<u8>, r: Result<JsonResponse, JsonRespError>) -> bool {
    &&& r.is_ok() == status_in_range(code)
    &&& r matches Ok(resp) ==> resp.is_response_for(code, failure_body(code, message))
    &&& r matches Err(e) ==> e is ResponseBuild
}

/// Builds a failure response with `code` around `message`, which is already a
/// JSON string literal.
pub fn failed_resp_from_json(code: u16, message: &[u8]) -> (r: Result<JsonResponse, JsonRespError>)
    ensures
        failure_outcome(code, message@, r),
{
    let body = failure_envelope(code, message);
    gen_response(code, body)
}

/// What the failure functions return for `code` and the optional caller message:
/// `UnknownReason` exactly when `code` has no canonical reason phrase; otherwise
/// a response whose message is the reason phrase (followed by `: ` and the
/// caller's message), written as a JSON string literal.
pub open spec fn failed_outcome(code: u16, message: Option<Seq<char>>, r: Result<JsonResponse, JsonRespError>) -> bool {
    match reason_of(code) {
        None => r matches Err(JsonRespError::UnknownReason(c)) && c == code,
        Some(reason) => r matches Ok(resp) && resp.is_response_for(
            code,
            failure_body(code, json_quoted(message_text(reason, message))),
        ),
    }
}

/// The shared body of the two failure functions.
fn failed_resp(code: u16, message: Option<&str>) -> (r: Result<JsonResponse, JsonRespError>)
    ensures
        failed_outcome(code, match message { None => None, Some(m) => Some(m@) }, r),
{
    match canonical_reason(code) {
        None => Err(JsonRespError::UnknownReason(code)),
        Some(reason) => {
            let text = failure_message(reason, message);
            let quoted = json_string(text.as_str()).unwrap();
            failed_resp_from_json(code, quoted.as_slice())
        },
    }
}

/// Builds a failure response with `code` whose message is the canonical reason
/// phrase followed by `: ` and `message`.
pub fn json_failed_resp_with_message(code: u16, message: &str) -> (r: Result<JsonResponse, JsonRespError>)
    ensures
        failed_outcome(code, Some(message@), r),
{
    failed_resp(code, Some(message))
}

/// Builds a failure response with `code` whose message is its canonical reason phrase.
pub fn json_failed_resp(code: u16) -> (r: Result<JsonResponse, JsonRespError>)
    ensures
        failed_outcome(code, None, r),
{
    failed_resp(code, None)
}

} // verus!
