//! Builds standardized JSON response envelopes for HTTP handlers.
//!
//! A success response carries `{"status":"success","code":<code>,"data":<data>}`,
//! a failure response `{"status":"failed","code":<code>,"message":"<reason>[: <message>]"}`,
//! both with `Content-Type: application/json; charset=utf-8` and an exact
//! `Content-Length`.

pub mod failed_resp;
pub mod json;
pub mod response;
pub mod status;
pub mod success_resp;

pub use failed_resp::{json_failed_resp, json_failed_resp_with_message};
pub use response::{JsonRespError, JsonResponse};
pub use success_resp::{json_success_resp, json_success_resp_with_code};
