//! HTTP status codes: range check and canonical reason phrases, from `http`.
use vstd::prelude::*;

verus! {

/// Whether `code` is a status code that `http` accepts: three decimal digits.
pub open spec fn status_in_range(code: u16) -> bool {
    100 <= code <= 999
}

/// The canonical reason phrase of `code` in the standard registry, if it has one.
pub uninterp spec fn reason_of(code: u16) -> Option<Seq<char>>;

/// Relies on http::StatusCode::from_u16: accepts exactly the codes 100 to 999,
/// and otherwise fails with InvalidStatusCode (converted into http::Error).
#[verifier::external_body]
pub(crate) fn check_status(code: u16) -> (r: Result<http::StatusCode, http::Error>)
    ensures
        r.is_ok() == status_in_range(code),
{
    http::StatusCode::from_u16(code).map_err(http::Error::from)
}

/// Relies on http::StatusCode::canonical_reason: the registry's reason phrase
/// for a status code. Only a code that http::StatusCode::from_u16 accepts has one.
#[verifier::external_body]
pub(crate) fn canonical_reason(code: u16) -> (r: Option<&'static str>)
    ensures
        r.is_some() == reason_of(code).is_some(),
        r.is_some() ==> r.unwrap()@ == reason_of(code).unwrap(),
        r.is_some() ==> status_in_range(code),
{
    http::StatusCode::from_u16(code).ok().and_then(|s| s.canonical_reason())
}

} // verus!
