//! HTTP over the orchestrator's IPC channel: the JSON responses a module
//! sends back, how handler errors become responses, and the answer to a
//! request no route takes.

use crate::headers::{distinct_names, header_map, put_pair};
use crate::http_tcp::json_content_headers;
use crate::ipc_types::IpcHttpResponse;
use crate::text::{concat2, concat3, json_quote, json_string_literal, owned, string_bytes};
use vstd::prelude::*;
use vstd::utf8::*;

verus! {

/// Standard response data structure for API responses over IPC (every field
/// is written, absent ones as `null`).
#[derive(Debug)]
pub struct ApiResponse<T> {
    /// Status of the response (`success` or `error`).
    pub status: String,
    /// Optional data payload.
    pub data: Option<T>,
    /// Optional message for additional context.
    pub message: Option<String>,
}

/// HTTP IPC specific errors. Errors that came from elsewhere carry their
/// rendered message.
#[derive(Debug)]
pub enum HttpIpcError {
    InvalidRequest(String),
    NotFound(String),
    Unauthorized(String),
    Forbidden(String),
    Internal(String),
    Sdk(String),
    Json(String),
    Other(String),
}

/// The status code an error is answered with.
pub open spec fn ipc_error_status(e: HttpIpcError) -> u16 {
    match e {
        HttpIpcError::InvalidRequest(_) => 400,
        HttpIpcError::NotFound(_) => 404,
        HttpIpcError::Unauthorized(_) => 401,
        HttpIpcError::Forbidden(_) => 403,
        _ => 500,
    }
}

/// The message of an error.
pub open spec fn ipc_error_text(e: HttpIpcError) -> Seq<char> {
    match e {
        HttpIpcError::InvalidRequest(m) => "Invalid request: "@ + m@,
        HttpIpcError::NotFound(m) => "Not found: "@ + m@,
        HttpIpcError::Unauthorized(m) => "Unauthorized: "@ + m@,
        HttpIpcError::Forbidden(m) => "Forbidden: "@ + m@,
        HttpIpcError::Internal(m) => "Internal error: "@ + m@,
        HttpIpcError::Sdk(m) => "SDK error: "@ + m@,
        HttpIpcError::Json(m) => "JSON error: "@ + m@,
        HttpIpcError::Other(m) => "Other error: "@ + m@,
    }
}

impl HttpIpcError {
    /// The status code this error is answered with.
    pub fn status_code(&self) -> (r: u16)
        ensures
            r == ipc_error_status(*self),
    {
        match self {
            HttpIpcError::InvalidRequest(_) => 400,
            HttpIpcError::NotFound(_) => 404,
            HttpIpcError::Unauthorized(_) => 401,
            HttpIpcError::Forbidden(_) => 403,
            _ => 500,
        }
    }

    /// The message of this error.
    pub fn message(&self) -> (r: String)
        ensures
            r@ == ipc_error_text(*self),
    {
        match self {
            HttpIpcError::InvalidRequest(m) => concat2("Invalid request: ", m.as_str()),
            HttpIpcError::NotFound(m) => concat2("Not found: ", m.as_str()),
            HttpIpcError::Unauthorized(m) => concat2("Unauthorized: ", m.as_str()),
            HttpIpcError::Forbidden(m) => concat2("Forbidden: ", m.as_str()),
            HttpIpcError::Internal(m) => concat2("Internal error: ", m.as_str()),
            HttpIpcError::Sdk(m) => concat2("SDK error: ", m.as_str()),
            HttpIpcError::Json(m) => concat2("JSON error: ", m.as_str()),
            HttpIpcError::Other(m) => concat2("Other error: ", m.as_str()),
        }
    }
}

/// The JSON text of an API response over IPC: status, data (already JSON)
/// and message, with `null` for an absent field.
pub open spec fn ipc_api_json(status: Seq<char>, data: Option<Seq<char>>, message: Option<Seq<char>>) -> Seq<char> {
    "{\"status\":\""@ + status + "\",\"data\":"@ + match data {
        Some(d) => d,
        None => "null"@,
    } + ",\"message\":"@ + match message {
        Some(m) => json_string_literal(m),
        None => "null"@,
    } + "}"@
}

/// A name/value list holding only `Content-Type: application/json`.
fn json_headers() -> (r: Vec<(String, String)>)
    ensures
        header_map(r@) == json_content_headers(),
        distinct_names(r@),
{
    let mut h: Vec<(String, String)> = Vec::new();
    assert(header_map(h@) =~= Map::empty());
    put_pair(&mut h, owned("Content-Type"), owned("application/json"));
    assert(header_map(h@) =~= json_content_headers());
    h
}

/// A response with a JSON body and the JSON headers; its request identifier
/// is filled in when it is sent.
fn json_body_response(text: String, request_id: String, status_code: u16) -> (r: IpcHttpResponse)
    ensures
        r.request_id == request_id,
        r.status_code == status_code,
        header_map(r.headers@) == json_content_headers(),
        distinct_names(r.headers@),
        r.body matches Some(b) && b@ == encode_utf8(text@),
{
    IpcHttpResponse {
        request_id,
        status_code,
        headers: json_headers(),
        body: Some(string_bytes(text.as_str())),
    }
}

/// A success response with a payload already rendered as JSON; the request
/// identifier is left empty, to be filled in when it is sent.
pub fn json_response(data: String, status_code: u16) -> (r: IpcHttpResponse)
    ensures
        r.request_id@.len() == 0,
        r.status_code == status_code,
        header_map(r.headers@) == json_content_headers(),
        r.body matches Some(b) && b@ == encode_utf8(ipc_api_json("success"@, Some(data@), None)),
{
    let text = concat3("{\"status\":\"success\",\"data\":", data.as_str(), ",\"message\":null}");
    proof {
        assert(text@ =~= ipc_api_json("success"@, Some(data@), None)) by {
            reveal_strlit("{\"status\":\"success\",\"data\":");
            reveal_strlit(",\"message\":null}");
            reveal_strlit("{\"status\":\"");
            reveal_strlit("success");
            reveal_strlit("\",\"data\":");
            reveal_strlit(",\"message\":");
            reveal_strlit("null");
            reveal_strlit("}");
        }
    }
    json_body_response(text, String::new(), status_code)
}

/// A success response (200) with a payload already rendered as JSON.
pub fn success(data: String) -> (r: IpcHttpResponse)
    ensures
        r.request_id@.len() == 0,
        r.status_code == 200,
        header_map(r.headers@) == json_content_headers(),
        r.body matches Some(b) && b@ == encode_utf8(ipc_api_json("success"@, Some(data@), None)),
{
    json_response(data, 200)
}

/// An error response with a message and no data; the request identifier is
/// left empty, to be filled in when it is sent.
pub fn error_response(message: &str, status_code: u16) -> (r: IpcHttpResponse)
    ensures
        r.request_id@.len() == 0,
        r.status_code == status_code,
        header_map(r.headers@) == json_content_headers(),
        r.body matches Some(b) && b@ == encode_utf8(ipc_api_json("error"@, None, Some(message@))),
{
    let text = error_text(message);
    json_body_response(text, String::new(), status_code)
}

/// The JSON text of an error response.
fn error_text(message: &str) -> (r: String)
    ensures
        r@ == ipc_api_json("error"@, None, Some(message@)),
{
    let q = json_quote(message);
    let text = concat3("{\"status\":\"error\",\"data\":null,\"message\":", q.as_str(), "}");
    proof {
        assert(text@ =~= ipc_api_json("error"@, None, Some(message@))) by {
            reveal_strlit("{\"status\":\"error\",\"data\":null,\"message\":");
            reveal_strlit("{\"status\":\"");
            reveal_strlit("error");
            reveal_strlit("\",\"data\":");
            reveal_strlit(",\"message\":");
            reveal_strlit("null");
        }
    }
    text
}

/// A not-found response (404) with the message `Endpoint not found: <path>`.
pub fn not_found(path: &str) -> (r: IpcHttpResponse)
    ensures
        r.request_id@.len() == 0,
        r.status_code == 404,
        header_map(r.headers@) == json_content_headers(),
        r.body matches Some(b) && b@ == encode_utf8(ipc_api_json("error"@, None, Some("Endpoint not found: "@ + path@))),
{
    let m = concat2("Endpoint not found: ", path);
    error_response(m.as_str(), 404)
}

/// The answer when no route takes a request and there is no custom handler:
/// 404 with the message `Endpoint not found: <METHOD> <path>`.
pub fn route_not_found(request_id: &str, method_upper: &str, path: &str) -> (r: IpcHttpResponse)
    ensures
        r.request_id@ == request_id@,
        r.status_code == 404,
        header_map(r.headers@) == json_content_headers(),
        r.body matches Some(b) && b@ == encode_utf8(
            ipc_api_json("error"@, None, Some("Endpoint not found: "@ + method_upper@ + " "@ + path@)),
        ),
{
    let head = concat3("Endpoint not found: ", method_upper, " ");
    let m = concat2(head.as_str(), path);
    let text = error_text(m.as_str());
    json_body_response(text, owned(request_id), 404)
}

/// The response to a handler error: its status code and a JSON error body
/// with its message.
pub fn error_to_response(error: HttpIpcError, request_id: &str) -> (r: IpcHttpResponse)
    ensures
        r.request_id@ == request_id@,
        r.status_code == ipc_error_status(error),
        header_map(r.headers@) == json_content_headers(),
        r.body matches Some(b) && b@ == encode_utf8(ipc_api_json("error"@, None, Some(ipc_error_text(error)))),
{
    let code = error.status_code();
    let m = error.message();
    let text = error_text(m.as_str());
    json_body_response(text, owned(request_id), code)
}

/// A handler's response, stamped with the identifier of the request it
/// answers.
pub fn answer_to(response: IpcHttpResponse, request_id: String) -> (r: IpcHttpResponse)
    ensures
        r.request_id == request_id,
        r.status_code == response.status_code,
        r.headers == response.headers,
        r.body == response.body,
{
    let mut r = response;
    r.request_id = request_id;
    r
}

/// The body a JSON-bodied request must carry: the bytes, or an invalid
/// request error `Request body is required`.
pub fn required_body(body: &Option<Vec<u8>>) -> (r: Result<&Vec<u8>, HttpIpcError>)
    ensures
        match body {
            Some(b) => r == Ok::<&Vec<u8>, HttpIpcError>(b),
            None => r matches Err(HttpIpcError::InvalidRequest(m)) && m@ == "Request body is required"@,
        },
{
    match body {
        Some(b) => Ok(b),
        None => Err(HttpIpcError::InvalidRequest(owned("Request body is required"))),
    }
}

} // verus!
