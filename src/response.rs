//! The assembled response: status, content headers and body.
use vstd::prelude::*;
use vstd::string::*;
use crate::json::{decimal, lemma_decimal_digits, push_decimal};
use crate::status::{check_status, status_in_range};

verus! {

#[verifier::external_type_specification]
#[verifier::external_body]
pub struct ExJsonError(serde_json::Error);

#[verifier::external_type_specification]
#[verifier::external_body]
pub struct ExHttpError(http::Error);

#[verifier::external_type_specification]
#[verifier::external_body]
pub struct ExValue(serde_json::Value);

#[verifier::external_type_specification]
#[verifier::external_body]
pub struct ExStatusCode(http::StatusCode);

#[verifier::external_type_specification]
#[verifier::external_body]
#[verifier::reject_recursive_types(T)]
pub struct ExResponse<T>(http::Response<T>);

/// Why a response could not be produced.
#[derive(Debug)]
pub enum JsonRespError {
    /// Data could not be turned into JSON (its own `Serialize` impl failed).
    Serialization(serde_json::Error),
    /// The response itself could not be built (a malformed status or header value).
    ResponseBuild(http::Error),
    /// A failure response was asked for a status code without a canonical reason phrase.
    UnknownReason(u16),
}

/// A JSON response ready to be handed to an HTTP server.
pub struct JsonResponse {
    /// The status line's code.
    pub status: u16,
    /// The value of the `Content-Length` header.
    pub content_length: Vec<u8>,
    /// The value of the `Content-Type` header.
    pub content_type: Vec<u8>,
    /// The serialized envelope.
    pub body: Vec<u8>,
}

/// `application/json; charset=utf-8`, as bytes.
pub open spec fn json_content_type() -> Seq<u8> {
    "application/json; charset=utf-8".spec_bytes()
}

impl JsonResponse {
    /// The response carries status `code`, the body `body`, its exact byte
    /// length as `Content-Length` and the JSON content type.
    pub open spec fn is_response_for(&self, code: u16, body: Seq<u8>) -> bool {
        &&& self.status == code
        &&& self.body@ == body
        &&& self.content_length@ == decimal(body.len())
        &&& self.content_type@ == json_content_type()
    }

    /// Well-formed: a status in range, and the content headers that match the body.
    pub open spec fn wf(&self) -> bool {
        &&& status_in_range(self.status)
        &&& self.is_response_for(self.status, self.body@)
    }

    /// Hands the response over as an `http::Response` with the same status,
    /// headers and body. A well-formed response is always accepted.
    pub fn into_http(self) -> (r: Result<http::Response<Vec<u8>>, JsonRespError>)
        ensures
            r.is_ok() == (status_in_range(self.status) && header_value_ok(self.content_length@)
                && header_value_ok(self.content_type@)),
            self.wf() ==> r.is_ok(),
            r matches Err(e) ==> e is ResponseBuild,
    {
        proof {
            if self.wf() {
                lemma_decimal_header_ok(self.body@.len());
                lemma_content_type_header_ok();
            }
        }
        match build_response(self.status, self.content_length.as_slice(), self.content_type.as_slice(), self.body) {
            Ok(resp) => Ok(resp),
            Err(e) => Err(JsonRespError::ResponseBuild(e)),
        }
    }
}

/// The `Content-Length` of an assembled response is the exact byte length of
/// its body, and a valid header value.
pub proof fn lemma_content_length_exact(resp: JsonResponse, code: u16, body: Seq<u8>)
    requires
        resp.is_response_for(code, body),
    ensures
        resp.content_length@ == decimal(resp.body@.len()),
        header_value_ok(resp.content_length@),
{
    lemma_decimal_header_ok(body.len());
}

/// Whether `http` accepts `v` as a header value: visible ASCII, space, tab or
/// bytes of 128 and above.
pub open spec fn header_value_ok(v: Seq<u8>) -> bool {
    forall|i: int| 0 <= i < v.len() ==> (32 <= #[trigger] v[i] && v[i] != 127) || v[i] == 9
}

/// Decimal digits are valid header bytes.
pub proof fn lemma_decimal_header_ok(n: nat)
    ensures
        header_value_ok(decimal(n)),
{
    lemma_decimal_digits(n);
}

/// The JSON content type is a valid header value.
pub proof fn lemma_content_type_header_ok()
    ensures
        header_value_ok(json_content_type()),
{
    reveal_strlit("application/json; charset=utf-8");
    broadcast use vstd::string::is_ascii_spec_bytes;
    assert(is_ascii("application/json; charset=utf-8"));
}

/// Relies on http::response::Builder (status, two headers, body): it fails
/// exactly when the status is outside 100 to 999 or a header value holds a
/// control byte other than tab.
#[verifier::external_body]
fn build_response(status: u16, content_length: &[u8], content_type: &[u8], body: Vec<u8>) -> (r: Result<http::Response<Vec<u8>>, http::Error>)
    ensures
        r.is_ok() == (status_in_range(status) && header_value_ok(content_length@) && header_value_ok(content_type@)),
{
    http::Response::builder()
        .status(status)
        .header(http::header::CONTENT_LENGTH, content_length)
        .header(http::header::CONTENT_TYPE, content_type)
        .body(body)
}

/// Assembles the response with status `code` around the serialized `payload`.
pub fn gen_response(code: u16, payload: Vec<u8>) -> (r: Result<JsonResponse, JsonRespError>)
    ensures
        r.is_ok() == status_in_range(code),
        r matches Ok(resp) ==> resp.is_response_for(code, payload@),
        r matches Err(e) ==> e is ResponseBuild,
{
    match check_status(code) {
        Err(e) => Err(JsonRespError::ResponseBuild(e)),
        Ok(_) => {
            let mut content_length: Vec<u8> = Vec::new();
            push_decimal(&mut content_length, payload.len() as u64);
            let content_type = "application/json; charset=utf-8".as_bytes_vec();
            proof {
                assert(content_length@ =~= decimal(payload@.len()));
            }
            Ok(JsonResponse { status: code, content_length, content_type, body: payload })
        },
    }
}

} // verus!
