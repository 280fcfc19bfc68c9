//! The requests the client makes of the service, and how it reads the answers.
use vstd::prelude::*;

use crate::json::{Json, JsonModel, compact_json, json_from_value, json_reading, opt_text};
use vstd::utf8::encode_utf8;
use crate::text::{decimal, decimal_string, trim_end, trim_end_matches, trim_start, trim_start_matches};

verus! {

/// The URL of `path` under `base_url`: one `/` between them, whatever slashes
/// `base_url` ends with and `path` starts with.
pub open spec fn joined_url(base_url: Seq<char>, path: Seq<char>) -> Seq<char> {
    trim_end(base_url, '/') + seq!['/'] + trim_start(path, '/')
}

/// The value of the `Authorization` header that carries `api_key`.
pub open spec fn bearer(api_key: Seq<char>) -> Seq<char> {
    "Bearer "@ + api_key
}

/// Whether a byte may stand in an HTTP header value: a tab, or any byte from 32 up but 127
/// (DEL). This is the test that `http::HeaderValue::from_str` makes of each byte.
pub open spec fn header_byte_ok(b: u8) -> bool {
    b == 9 || (b >= 32 && b != 127)
}

/// Whether `v` can be sent as an HTTP header value: each byte of its UTF-8 form may stand in
/// one.
pub open spec fn valid_header_value(v: Seq<char>) -> bool {
    forall|i: int| 0 <= i < encode_utf8(v).len() ==> header_byte_ok(#[trigger] encode_utf8(v)[i])
}

/// The error when the API key cannot be sent in a header.
pub open spec fn invalid_key_message() -> Seq<char> {
    "invalid api key: failed to parse header value"@
}

/// The media type of the bodies the client sends and asks for.
pub open spec fn json_content_type() -> Seq<char> {
    "application/json"@
}

/// Whether an HTTP status code reports success (the 2xx class).
pub open spec fn is_success(status: u16) -> bool {
    200 <= status <= 299
}

/// The error when a response body is not JSON.
pub open spec fn unparsable_message(status: u16, message: Seq<char>, body: Seq<char>) -> Seq<char> {
    "parse json response (status "@ + decimal(status as nat) + "): "@ + message + " body="@ + body
}

/// The error when the service answers with a status that is not a success.
pub open spec fn failed_status_message(status: u16, compact: Seq<char>) -> Seq<char> {
    "request failed with status "@ + decimal(status as nat) + ": "@ + compact
}

/// The text of an optional string slice.
pub open spec fn opt_str_text(o: Option<&str>) -> Option<Seq<char>> {
    match o {
        Some(s) => Some(s@),
        None => None,
    }
}

/// The URL of `path` under `base_url`.
pub fn join_url(base_url: &str, path: &str) -> (r: String)
    ensures
        r@ == joined_url(base_url@, path@),
{
    let mut r = String::from_str(trim_end_matches(base_url, '/'));
    proof {
        reveal_strlit("/");
    }
    r.append("/");
    r.append(trim_start_matches(path, '/'));
    r
}

/// `Bearer ` followed by the key.
fn bearer_value(api_key: &str) -> (r: String)
    ensures
        r@ == bearer(api_key@),
{
    let mut r = String::from_str("Bearer ");
    r.append(api_key);
    r
}

/// Whether `v` can be sent as an HTTP header value.
pub fn is_valid_header_value(v: &str) -> (r: bool)
    ensures
        r == valid_header_value(v@),
{
    let bytes = v.as_bytes();
    let mut i: usize = 0;
    while i < bytes.len()
        invariant
            bytes@ == encode_utf8(v@),
            i <= bytes@.len(),
            forall|k: int| 0 <= k < i ==> header_byte_ok(#[trigger] bytes@[k]),
        decreases bytes@.len() - i,
    {
        let b = bytes[i];
        if !(b == 9 || (b >= 32 && b != 127)) {
            assert(!header_byte_ok(encode_utf8(v@)[i as int]));
            return false;
        }
        i = i + 1;
    }
    true
}

#[derive(Clone, Copy, PartialEq, Eq, Structural, Debug)]
pub enum Method {
    Get,
    Post,
}

/// A request to the service, ready to send.
#[derive(Debug, PartialEq, Eq)]
pub struct HttpRequest {
    pub method: Method,
    /// The base URL and the path, as given (for messages).
    pub base_url: String,
    pub path: String,
    /// Where the request goes.
    pub url: String,
    /// The value of the `Authorization` header, if the request carries one.
    pub authorization: Option<String>,
    /// The value of the `Content-Type` header.
    pub content_type: String,
    /// The JSON body, for a POST.
    pub payload: Option<Json>,
}

/// Whether `r` is a GET of `path` under `base_url`, authenticated by `api_key`.
pub open spec fn is_get_request(r: HttpRequest, base_url: Seq<char>, path: Seq<char>, api_key: Seq<char>) -> bool {
    &&& r.method == Method::Get
    &&& r.base_url@ == base_url
    &&& r.path@ == path
    &&& r.url@ == joined_url(base_url, path)
    &&& r.payload is None
    &&& r.authorization matches Some(a) && a@ == bearer(api_key)
    &&& r.content_type@ == json_content_type()
}

/// Whether `r` is a POST of `payload` to `path` under `base_url`, carrying the API key when
/// there is one.
pub open spec fn is_post_request(
    r: HttpRequest,
    base_url: Seq<char>,
    path: Seq<char>,
    payload: JsonModel,
    api_key: Option<Seq<char>>,
) -> bool {
    &&& r.method == Method::Post
    &&& r.base_url@ == base_url
    &&& r.path@ == path
    &&& r.url@ == joined_url(base_url, path)
    &&& r.payload matches Some(p) && p@ == payload
    &&& r.content_type@ == json_content_type()
    &&& match api_key {
        Some(k) => r.authorization matches Some(a) && a@ == bearer(k),
        None => r.authorization is None,
    }
}

/// A POST of `payload` to `path` under `base_url`, with the API key if there is one.
pub fn post_json_request(base_url: &str, path: &str, payload: Json, api_key: Option<&str>) -> (r:
    HttpRequest)
    ensures
        r.method == Method::Post,
        r.base_url@ == base_url@,
        r.path@ == path@,
        r.url@ == joined_url(base_url@, path@),
        r.payload == Some(payload),
        r.content_type@ == json_content_type(),
        is_post_request(r, base_url@, path@, payload@, opt_str_text(api_key)),
{
    let authorization = match api_key {
        Some(k) => Some(bearer_value(k)),
        None => None,
    };
    HttpRequest {
        method: Method::Post,
        base_url: String::from_str(base_url),
        path: String::from_str(path),
        url: join_url(base_url, path),
        authorization,
        content_type: json_content_type_string(),
        payload: Some(payload),
    }
}

/// `application/json`.
fn json_content_type_string() -> (r: String)
    ensures
        r@ == json_content_type(),
{
    String::from_str("application/json")
}

/// A GET of `path` under `base_url`, authenticated by `api_key`; an error when the key cannot
/// be sent in a header.
pub fn get_json_request(base_url: &str, path: &str, api_key: &str) -> (r: Result<HttpRequest, String>)
    ensures
        if valid_header_value(bearer(api_key@)) {
            r matches Ok(request) && is_get_request(request, base_url@, path@, api_key@)
        } else {
            r matches Err(e) && e@ == invalid_key_message()
        },
{
    let authorization = bearer_value(api_key);
    if !is_valid_header_value(authorization.as_str()) {
        return Err(String::from_str("invalid api key: failed to parse header value"));
    }
    Ok(
        HttpRequest {
            method: Method::Get,
            base_url: String::from_str(base_url),
            path: String::from_str(path),
            url: join_url(base_url, path),
            authorization: Some(authorization),
            content_type: json_content_type_string(),
            payload: None,
        },
    )
}

/// What came of reading a response body as JSON.
#[derive(Debug, PartialEq, Eq)]
pub enum ResponseBody {
    /// The body is JSON: its value, and that value written back as compact JSON text (`None`
    /// when writing it failed).
    Parsed { value: Json, compact: Option<String> },
    /// The body is not JSON: the parser's message.
    Unparsable { message: String },
}

/// The compact text of an answer, or `{}` when there is none.
pub open spec fn compact_or_braces(compact: Option<Seq<char>>) -> Seq<char> {
    match compact {
        Some(c) => c,
        None => "{}"@,
    }
}

/// Reads `body` with `serde_json::from_str` into a `serde_json::Value` and, when that works,
/// writes the value back with `serde_json::to_string`. Claimed: the outcome is what those two
/// calls give for `body` (`json_reading` and `compact_json`), the value in the library's form
/// and the parser's error by its text.
#[verifier::external_body]
fn parse_response_body(body: &str) -> (r: ResponseBody)
    ensures
        match r {
            ResponseBody::Parsed { value, compact } => json_reading(body@) == Ok::<
                JsonModel,
                Seq<char>,
            >(value@) && compact_json(value@) == opt_text(compact),
            ResponseBody::Unparsable { message } => json_reading(body@) == Err::<JsonModel, Seq<char>>(
                message@,
            ),
        },
{
    match serde_json::from_str::<serde_json::Value>(body) {
        Ok(v) => ResponseBody::Parsed { value: json_from_value(&v), compact: serde_json::to_string(&v).ok() },
        Err(e) => ResponseBody::Unparsable { message: e.to_string() },
    }
}

/// The outcome of a response with status `status` and body `body`, given what reading the
/// body as JSON gave: its value when the status is a success, else an error that names the
/// status.
pub fn json_response_outcome(status: u16, body: &str, parsed: ResponseBody) -> (r: Result<Json, String>)
    ensures
        match parsed {
            ResponseBody::Unparsable { message } => r matches Err(e) && e@ == unparsable_message(
                status,
                message@,
                body@,
            ),
            ResponseBody::Parsed { value, compact } => if is_success(status) {
                r == Ok::<Json, String>(value)
            } else {
                r matches Err(e) && e@ == failed_status_message(
                    status,
                    compact_or_braces(opt_text(compact)),
                )
            },
        },
{
    match parsed {
        ResponseBody::Unparsable { message } => {
            let mut e = String::from_str("parse json response (status ");
            e.append(decimal_string(status as u64).as_str());
            e.append("): ");
            e.append(message.as_str());
            e.append(" body=");
            e.append(body);
            Err(e)
        },
        ResponseBody::Parsed { value, compact } => {
            if 200 <= status && status <= 299 {
                Ok(value)
            } else {
                let mut e = String::from_str("request failed with status ");
                e.append(decimal_string(status as u64).as_str());
                e.append(": ");
                match compact {
                    Some(c) => e.append(c.as_str()),
                    None => e.append("{}"),
                }
                Err(e)
            }
        },
    }
}

/// The outcome of a response with status `status` and body `body`: the JSON value of the body
/// when the status is a success; an error that names the status and gives the answer as
/// compact JSON when it is not; an error that names the status and quotes the body when the
/// body is not JSON.
pub fn read_json_response(status: u16, body: &str) -> (r: Result<Json, String>)
    ensures
        match json_reading(body@) {
            Err(message) => r matches Err(e) && e@ == unparsable_message(status, message, body@),
            Ok(value) => if is_success(status) {
                r matches Ok(j) && j@ == value
            } else {
                r matches Err(e) && e@ == failed_status_message(
                    status,
                    compact_or_braces(compact_json(value)),
                )
            },
        },
{
    json_response_outcome(status, body, parse_response_body(body))
}

} // verus!
