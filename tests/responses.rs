use routerify_json_response::failed_resp::{failed_resp_from_json, failure_message};
use routerify_json_response::json::{failure_envelope, push_decimal, success_envelope};
use routerify_json_response::success_resp::success_resp_from_json;
use routerify_json_response::{
    json_failed_resp, json_failed_resp_with_message, json_success_resp, json_success_resp_with_code,
    JsonRespError, JsonResponse,
};
use serde_json::Value;

const JSON_TYPE: &[u8] = b"application/json; charset=utf-8";

fn names() -> Value {
    Value::Array(vec![Value::from("Alice"), Value::from("John")])
}

fn decimal_of(n: u64) -> Vec<u8> {
    let mut out = Vec::new();
    push_decimal(&mut out, n);
    out
}

fn check_headers(resp: &JsonResponse) {
    assert_eq!(resp.content_length, resp.body.len().to_string().into_bytes());
    assert_eq!(resp.content_type, JSON_TYPE.to_vec());
}

fn parse(resp: &JsonResponse) -> Value {
    serde_json::from_slice(&resp.body).unwrap()
}

#[test]
fn success_default_code_example() {
    let resp = json_success_resp(&names()).unwrap();
    assert_eq!(resp.status, 200);
    assert_eq!(resp.body, br#"{"status":"success","code":200,"data":["Alice","John"]}"#.to_vec());
    assert_eq!(resp.content_length, b"55".to_vec());
    check_headers(&resp);
}

#[test]
fn success_default_matches_code_200() {
    let a = json_success_resp(&names()).unwrap();
    let b = json_success_resp_with_code(200, &names()).unwrap();
    assert_eq!(a.status, b.status);
    assert_eq!(a.body, b.body);
    assert_eq!(a.content_length, b.content_length);
    assert_eq!(a.content_type, b.content_type);
}

#[test]
fn success_with_code_created() {
    let resp = json_success_resp_with_code(201, &names()).unwrap();
    assert_eq!(resp.status, 201);
    assert_eq!(resp.body, br#"{"status":"success","code":201,"data":["Alice","John"]}"#.to_vec());
    check_headers(&resp);
}

#[test]
fn success_round_trip_keeps_data() {
    let mut obj = serde_json::Map::new();
    obj.insert("id".to_string(), Value::from(7));
    obj.insert("price".to_string(), Value::from(12.5));
    obj.insert("tags".to_string(), names());
    obj.insert("none".to_string(), Value::Null);
    let data = Value::Object(obj);
    let resp = json_success_resp_with_code(202, &data).unwrap();
    let parsed = parse(&resp);
    assert_eq!(parsed["status"], Value::from("success"));
    assert_eq!(parsed["code"], Value::from(202));
    assert_eq!(parsed["data"], data);
    check_headers(&resp);
}

#[test]
fn success_with_out_of_range_code_is_build_error() {
    assert!(matches!(json_success_resp_with_code(99, &names()), Err(JsonRespError::ResponseBuild(_))));
    assert!(matches!(json_success_resp_with_code(1000, &names()), Err(JsonRespError::ResponseBuild(_))));
    assert!(matches!(json_success_resp_with_code(0, &Value::Null), Err(JsonRespError::ResponseBuild(_))));
}

#[test]
fn success_with_edge_codes() {
    let low = json_success_resp_with_code(100, &Value::Null).unwrap();
    assert_eq!(low.body, br#"{"status":"success","code":100,"data":null}"#.to_vec());
    let high = json_success_resp_with_code(999, &Value::Null).unwrap();
    assert_eq!(high.body, br#"{"status":"success","code":999,"data":null}"#.to_vec());
}

#[test]
fn success_from_json_frames_text() {
    let resp = success_resp_from_json(200, b"[1,2]").unwrap();
    assert_eq!(resp.body, br#"{"status":"success","code":200,"data":[1,2]}"#.to_vec());
    check_headers(&resp);
    let empty = success_resp_from_json(204, b"{}").unwrap();
    assert_eq!(empty.body, br#"{"status":"success","code":204,"data":{}}"#.to_vec());
}

#[test]
fn failure_with_message_example() {
    let resp = json_failed_resp_with_message(500, "db down").unwrap();
    assert_eq!(resp.status, 500);
    assert_eq!(
        resp.body,
        br#"{"status":"failed","code":500,"message":"Internal Server Error: db down"}"#.to_vec()
    );
    check_headers(&resp);
}

#[test]
fn failure_reason_only() {
    let resp = json_failed_resp(404).unwrap();
    assert_eq!(resp.status, 404);
    assert_eq!(resp.body, br#"{"status":"failed","code":404,"message":"Not Found"}"#.to_vec());
    check_headers(&resp);
    let parsed = parse(&json_failed_resp(500).unwrap());
    assert_eq!(parsed["message"], Value::from("Internal Server Error"));
    assert_eq!(parsed["code"], Value::from(500));
    assert_eq!(parsed["status"], Value::from("failed"));
}

#[test]
fn failure_unknown_reason() {
    assert!(matches!(json_failed_resp(599), Err(JsonRespError::UnknownReason(599))));
    assert!(matches!(json_failed_resp(42), Err(JsonRespError::UnknownReason(42))));
    assert!(matches!(json_failed_resp_with_message(1000, "x"), Err(JsonRespError::UnknownReason(1000))));
}

#[test]
fn failure_message_is_escaped() {
    let resp = json_failed_resp_with_message(400, "bad \"name\"\n").unwrap();
    assert_eq!(
        resp.body,
        br#"{"status":"failed","code":400,"message":"Bad Request: bad \"name\"\n"}"#.to_vec()
    );
    let parsed = parse(&resp);
    assert_eq!(parsed["message"], Value::from("Bad Request: bad \"name\"\n"));
}

#[test]
fn failure_content_length_counts_bytes() {
    let resp = json_failed_resp_with_message(409, "héllo wörld").unwrap();
    let parsed = parse(&resp);
    assert_eq!(parsed["message"], Value::from("Conflict: héllo wörld"));
    check_headers(&resp);
    assert!(resp.body.len() > String::from_utf8(resp.body.clone()).unwrap().chars().count());
}

#[test]
fn failure_empty_message() {
    let resp = json_failed_resp_with_message(403, "").unwrap();
    assert_eq!(resp.body, br#"{"status":"failed","code":403,"message":"Forbidden: "}"#.to_vec());
}

#[test]
fn failure_from_json_frames_literal() {
    let resp = failed_resp_from_json(503, br#""down""#).unwrap();
    assert_eq!(resp.body, br#"{"status":"failed","code":503,"message":"down"}"#.to_vec());
    assert!(matches!(failed_resp_from_json(7, br#""x""#), Err(JsonRespError::ResponseBuild(_))));
}

#[test]
fn message_joins_reason() {
    assert_eq!(failure_message("Not Found", None), "Not Found");
    assert_eq!(failure_message("Not Found", Some("no user")), "Not Found: no user");
}

#[test]
fn decimal_digits() {
    assert_eq!(decimal_of(0), b"0".to_vec());
    assert_eq!(decimal_of(7), b"7".to_vec());
    assert_eq!(decimal_of(10), b"10".to_vec());
    assert_eq!(decimal_of(65535), b"65535".to_vec());
    assert_eq!(decimal_of(u64::MAX), u64::MAX.to_string().into_bytes());
    let mut out = b"x=".to_vec();
    push_decimal(&mut out, 305);
    assert_eq!(out, b"x=305".to_vec());
}

#[test]
fn envelopes_as_bytes() {
    assert_eq!(success_envelope(200, b"true"), br#"{"status":"success","code":200,"data":true}"#.to_vec());
    assert_eq!(failure_envelope(418, br#""tea""#), br#"{"status":"failed","code":418,"message":"tea"}"#.to_vec());
}

#[test]
fn into_http_keeps_parts() {
    let resp = json_success_resp(&names()).unwrap();
    let body = resp.body.clone();
    let http_resp = resp.into_http().unwrap();
    assert_eq!(http_resp.status().as_u16(), 200);
    assert_eq!(http_resp.headers()["content-length"], "55");
    assert_eq!(http_resp.headers()["content-type"], "application/json; charset=utf-8");
    assert_eq!(http_resp.body(), &body);
}

#[test]
fn into_http_rejects_bad_parts() {
    let bad_header = JsonResponse {
        status: 200,
        content_length: b"1\n".to_vec(),
        content_type: JSON_TYPE.to_vec(),
        body: b"1".to_vec(),
    };
    assert!(matches!(bad_header.into_http(), Err(JsonRespError::ResponseBuild(_))));
    let bad_status = JsonResponse {
        status: 1200,
        content_length: b"1".to_vec(),
        content_type: JSON_TYPE.to_vec(),
        body: b"1".to_vec(),
    };
    assert!(matches!(bad_status.into_http(), Err(JsonRespError::ResponseBuild(_))));
}

#[test]
fn failure_message_escapes_controls() {
    let resp = json_failed_resp_with_message(422, "a\u{1}\t\u{1f}\\/\u{7f}é").unwrap();
    let mut expected = br#"{"status":"failed","code":422,"message":"Unprocessable Entity: a\u0001\t\u001f\\/"#.to_vec();
    expected.push(0x7f);
    expected.extend_from_slice("é\"}".as_bytes());
    assert_eq!(resp.body, expected);
    check_headers(&resp);
}
