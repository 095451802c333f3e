//! Success responses: `{"status":"success","code":<code>,"data":<data>}`.
use vstd::prelude::*;
use crate::json::{success_body, success_envelope, value_json};
use crate::response::{gen_response, JsonRespError, JsonResponse};
use crate::status::status_in_range;

verus! {

/// The status code of [`json_success_resp`].
pub const STATUS_OK: u16 = 200;

/// What a success response with `code` around the JSON text `data` comes to:
/// built exactly when `code` is in range, and otherwise a build error.
pub open spec fn success_outcome(code: u16, data: Seq<u8>, r: Result<JsonResponse, JsonRespError>) -> bool {
    &&& r.is_ok() == status_in_range(code)
    &&& r matches Ok(resp) ==> resp.is_response_for(code, success_body(code, data))
    &&& r matches Err(e) ==> e is ResponseBuild
}

/// Builds a success response with `code` around `data`, which is already JSON text.
pub fn success_resp_from_json(code: u16, data: &[u8]) -> (r: Result<JsonResponse, JsonRespError>)
    ensures
        success_outcome(code, data@, r),
{
    let body = success_envelope(code, data);
    gen_response(code, body)
}

/// What a success response with `code` around a `serde_json::Value` comes to:
/// the outcome of framing the JSON text that serde_json wrote for it, which
/// is a response exactly when `code` is in range.
pub open spec fn value_outcome(code: u16, r: Result<JsonResponse, JsonRespError>) -> bool {
    exists|text: Seq<u8>| success_outcome(code, text, r)
}

/// Builds a success response with `code` around `data`.
///
/// A `Value` always serializes: the result is a response exactly when `code`
/// is in range, and its body frames the JSON text that serde_json wrote.
pub fn json_success_resp_with_code(code: u16, data: &serde_json::Value) -> (r: Result<JsonResponse, JsonRespError>)
    ensures
        value_outcome(code, r),
        r.is_ok() == status_in_range(code),
        r matches Err(e) ==> e is ResponseBuild,
{
    let text = value_json(data).unwrap();
    let r = success_resp_from_json(code, text.as_slice());
    assert(success_outcome(code, text@, r));
    r
}

/// Builds a success response with status 200 around `data`: the same as
/// [`json_success_resp_with_code`] with 200.
pub fn json_success_resp(data: &serde_json::Value) -> (r: Result<JsonResponse, JsonRespError>)
    ensures
        value_outcome(STATUS_OK, r),
        r is Ok,
{
    json_success_resp_with_code(STATUS_OK, data)
}

} // verus!
