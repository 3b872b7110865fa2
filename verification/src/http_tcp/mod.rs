//! HTTP requests and responses carried over the module's TCP channel, and
//! the standard JSON bodies of API responses.

pub mod client;
pub mod router;

use crate::headers::{distinct_names, get_pair, header_map, put_all, put_pair};
use crate::sys::{hyphenated_uuid_text, new_uuid_string};
use crate::text::{concat2, concat3, json_quote, json_string_literal, owned, string_bytes, string_from_utf8};
use crate::uri::{parse_query, path_of, query_map, uri_path};
use std::string::FromUtf8Error;
use vstd::prelude::*;
use vstd::utf8::*;

verus! {

/// HTTP request transported over TCP.
#[derive(Debug, Clone)]
pub struct HttpTcpRequest {
    /// Unique identifier for the request.
    pub request_id: String,
    /// HTTP method (GET, POST, etc.).
    pub method: String,
    /// Request URI (path and query).
    pub uri: String,
    /// HTTP headers, as a name/value list.
    pub headers: Vec<(String, String)>,
    /// Request body, if any.
    pub body: Option<Vec<u8>>,
}

impl HttpTcpRequest {
    /// A request with a fresh random identifier, no headers and no body.
    pub fn new(method: &str, uri: &str) -> (r: Self)
        ensures
            r.method@ == method@,
            r.uri@ == uri@,
            r.headers@.len() == 0,
            r.body is None,
            hyphenated_uuid_text(r.request_id@),
    {
        HttpTcpRequest {
            request_id: new_uuid_string(),
            method: owned(method),
            uri: owned(uri),
            headers: Vec::new(),
            body: None,
        }
    }

    /// Sets one header.
    pub fn with_header(self, key: &str, value: &str) -> (r: Self)
        ensures
            r.request_id == self.request_id,
            r.method == self.method,
            r.uri == self.uri,
            r.body == self.body,
            header_map(r.headers@) == header_map(self.headers@).insert(key@, value@),
            distinct_names(self.headers@) ==> distinct_names(r.headers@),
    {
        let mut r = self;
        put_pair(&mut r.headers, owned(key), owned(value));
        r
    }

    /// Sets every header of `headers`, later ones taking the place of earlier.
    pub fn with_headers(self, headers: Vec<(String, String)>) -> (r: Self)
        ensures
            r.request_id == self.request_id,
            r.method == self.method,
            r.uri == self.uri,
            r.body == self.body,
            header_map(r.headers@) == header_map(self.headers@).union_prefer_right(header_map(headers@)),
            distinct_names(self.headers@) ==> distinct_names(r.headers@),
    {
        let mut r = self;
        put_all(&mut r.headers, headers);
        r
    }

    /// Sets the body.
    pub fn with_body(self, body: Vec<u8>) -> (r: Self)
        ensures
            r.request_id == self.request_id,
            r.method == self.method,
            r.uri == self.uri,
            r.headers == self.headers,
            r.body == Some(body),
    {
        let mut r = self;
        r.body = Some(body);
        r
    }

    /// Sets the request identifier.
    pub fn with_request_id(self, request_id: &str) -> (r: Self)
        ensures
            r.request_id@ == request_id@,
            r.method == self.method,
            r.uri == self.uri,
            r.headers == self.headers,
            r.body == self.body,
    {
        let mut r = self;
        r.request_id = owned(request_id);
        r
    }

    /// The value of a header, if set.
    pub fn header(&self, key: &str) -> (r: Option<&String>)
        ensures
            r is Some <==> header_map(self.headers@).contains_key(key@),
            r is Some ==> r->Some_0@ == header_map(self.headers@)[key@],
    {
        get_pair(&self.headers, key)
    }

    /// The query parameters of the URI (see `crate::uri::query_map`), with
    /// no name repeated.
    pub fn query_params(&self) -> (r: Vec<(String, String)>)
        ensures
            header_map(r@) == query_map(self.uri@),
            distinct_names(r@),
    {
        parse_query(self.uri.as_str())
    }

    /// The value of one query parameter, if present.
    pub fn query_param(&self, key: &str) -> (r: Option<String>)
        ensures
            r is Some <==> query_map(self.uri@).contains_key(key@),
            r is Some ==> r->Some_0@ == query_map(self.uri@)[key@],
    {
        let params = self.query_params();
        match get_pair(&params, key) {
            Some(v) => Some(v.clone()),
            None => None,
        }
    }

    /// The path part of the URI: everything before the first `?`.
    pub fn path(&self) -> (r: &str)
        ensures
            r@ == uri_path(self.uri@),
    {
        path_of(self.uri.as_str())
    }
}

/// HTTP response transported over TCP.
#[derive(Debug, Clone)]
pub struct HttpTcpResponse {
    /// Identifier of the request this answers.
    pub request_id: String,
    /// HTTP status code.
    pub status_code: u16,
    /// HTTP headers, as a name/value list.
    pub headers: Vec<(String, String)>,
    /// Response body, if any.
    pub body: Option<Vec<u8>>,
}

impl HttpTcpResponse {
    /// A response with no headers and no body.
    pub fn new(request_id: &str, status_code: u16) -> (r: Self)
        ensures
            r.request_id@ == request_id@,
            r.status_code == status_code,
            r.headers@.len() == 0,
            r.body is None,
    {
        HttpTcpResponse { request_id: owned(request_id), status_code, headers: Vec::new(), body: None }
    }

    /// Sets one header.
    pub fn with_header(self, key: &str, value: &str) -> (r: Self)
        ensures
            r.request_id == self.request_id,
            r.status_code == self.status_code,
            r.body == self.body,
            header_map(r.headers@) == header_map(self.headers@).insert(key@, value@),
            distinct_names(self.headers@) ==> distinct_names(r.headers@),
    {
        let mut r = self;
        put_pair(&mut r.headers, owned(key), owned(value));
        r
    }

    /// Sets every header of `headers`, later ones taking the place of earlier.
    pub fn with_headers(self, headers: Vec<(String, String)>) -> (r: Self)
        ensures
            r.request_id == self.request_id,
            r.status_code == self.status_code,
            r.body == self.body,
            header_map(r.headers@) == header_map(self.headers@).union_prefer_right(header_map(headers@)),
            distinct_names(self.headers@) ==> distinct_names(r.headers@),
    {
        let mut r = self;
        put_all(&mut r.headers, headers);
        r
    }

    /// Sets the body.
    pub fn with_body(self, body: Vec<u8>) -> (r: Self)
        ensures
            r.request_id == self.request_id,
            r.status_code == self.status_code,
            r.headers == self.headers,
            r.body == Some(body),
    {
        let mut r = self;
        r.body = Some(body);
        r
    }

    /// The value of a header, if set.
    pub fn header(&self, key: &str) -> (r: Option<&String>)
        ensures
            r is Some <==> header_map(self.headers@).contains_key(key@),
            r is Some ==> r->Some_0@ == header_map(self.headers@)[key@],
    {
        get_pair(&self.headers, key)
    }

    /// The body decoded as UTF-8: `None` without a body, an error when the
    /// body is not valid UTF-8.
    pub fn body_as_string(&self) -> (r: Option<Result<String, FromUtf8Error>>)
        ensures
            r is None <==> self.body is None,
            self.body matches Some(b) ==> (r->Some_0 is Ok <==> valid_utf8(b@)),
            self.body matches Some(b) ==> (r->Some_0 matches Ok(s) ==> s@ == decode_utf8(b@)),
    {
        match &self.body {
            Some(b) => Some(string_from_utf8(b.clone())),
            None => None,
        }
    }

    /// Whether the status is a success (2xx).
    pub fn is_success(&self) -> (r: bool)
        ensures
            r == (200 <= self.status_code < 300),
    {
        self.status_code >= 200 && self.status_code < 300
    }

    /// Whether the status is a client error (4xx).
    pub fn is_client_error(&self) -> (r: bool)
        ensures
            r == (400 <= self.status_code < 500),
    {
        self.status_code >= 400 && self.status_code < 500
    }

    /// Whether the status is a server error (5xx).
    pub fn is_server_error(&self) -> (r: bool)
        ensures
            r == (500 <= self.status_code < 600),
    {
        self.status_code >= 500 && self.status_code < 600
    }
}

/// Standard response data structure for API responses.
#[derive(Debug)]
pub struct ApiResponse<T> {
    /// Status of the response (`success` or `error`).
    pub status: String,
    /// Optional data payload.
    pub data: Option<T>,
    /// Optional message for additional context.
    pub message: Option<String>,
}

/// The status word of a JSON API response for a status code.
pub open spec fn status_word(status_code: u16) -> Seq<char> {
    if status_code < 400 {
        "success"@
    } else {
        "error"@
    }
}

/// The JSON text of an API response: the status, then the data (already
/// JSON) and the message when present; absent fields are left out.
pub open spec fn api_json(status: Seq<char>, data: Option<Seq<char>>, message: Option<Seq<char>>) -> Seq<char> {
    "{\"status\":\""@ + status + "\""@ + match data {
        Some(d) => ",\"data\":"@ + d,
        None => Seq::empty(),
    } + match message {
        Some(m) => ",\"message\":"@ + json_string_literal(m),
        None => Seq::empty(),
    } + "}"@
}

/// The headers of a JSON response.
pub open spec fn json_content_headers() -> Map<Seq<char>, Seq<char>> {
    map!["Content-Type"@ => "application/json"@]
}

/// The view of an optional text.
pub open spec fn opt_text(v: Option<String>) -> Option<Seq<char>> {
    match v {
        Some(s) => Some(s@),
        None => None,
    }
}

/// A name/value list holding only `Content-Type: application/json`.
fn json_headers() -> (r: Vec<(String, String)>)
    ensures
        header_map(r@) == json_content_headers(),
        distinct_names(r@),
{
    let mut h: Vec<(String, String)> = Vec::new();
    assert(header_map(h@) =~= Map::empty());
    put_pair(&mut h, owned("Content-Type"), owned("application/json"));
    assert(header_map(h@) =~= json_content_headers());
    h
}

/// The JSON text of an API response (see `api_json`).
pub fn api_json_text(status: &str, data: &Option<String>, message: &Option<String>) -> (r: String)
    ensures
        r@ == api_json(status@, opt_text(*data), opt_text(*message)),
{
    let head = concat3("{\"status\":\"", status, "\"");
    let with_data = match data {
        Some(d) => concat3(head.as_str(), ",\"data\":", d.as_str()),
        None => head,
    };
    let with_message = match message {
        Some(m) => {
            let q = json_quote(m.as_str());
            concat3(with_data.as_str(), ",\"message\":", q.as_str())
        },
        None => with_data,
    };
    let r = concat2(with_message.as_str(), "}");
    proof {
        let st = status@;
        let dpart: Seq<char> = match opt_text(*data) {
            Some(d) => ",\"data\":"@ + d,
            None => Seq::empty(),
        };
        let mpart: Seq<char> = match opt_text(*message) {
            Some(m) => ",\"message\":"@ + json_string_literal(m),
            None => Seq::empty(),
        };
        assert(with_data@ =~= "{\"status\":\""@ + st + "\""@ + dpart);
        assert(with_message@ =~= "{\"status\":\""@ + st + "\""@ + dpart + mpart);
    }
    r
}

/// A JSON API response: the status word follows the status code, the body is
/// the JSON text of the response, and `Content-Type` is `application/json`.
/// `data` is the payload already rendered as JSON.
pub fn json_response(request_id: &str, status_code: u16, data: Option<String>, message: Option<String>) -> (r: HttpTcpResponse)
    ensures
        r.request_id@ == request_id@,
        r.status_code == status_code,
        header_map(r.headers@) == json_content_headers(),
        distinct_names(r.headers@),
        r.body matches Some(b) && b@ == encode_utf8(api_json(status_word(status_code), opt_text(data), opt_text(message))),
{
    let status = if status_code < 400 { "success" } else { "error" };
    let text = api_json_text(status, &data, &message);
    HttpTcpResponse {
        request_id: owned(request_id),
        status_code,
        headers: json_headers(),
        body: Some(string_bytes(text.as_str())),
    }
}

/// The response sent when the payload could not be rendered as JSON: the
/// JSON headers and no body.
pub fn unrenderable_response(request_id: &str, status_code: u16) -> (r: HttpTcpResponse)
    ensures
        r.request_id@ == request_id@,
        r.status_code == status_code,
        header_map(r.headers@) == json_content_headers(),
        r.body is None,
{
    HttpTcpResponse { request_id: owned(request_id), status_code, headers: json_headers(), body: None }
}

/// A success response (200) with a payload already rendered as JSON.
pub fn success(request_id: &str, data: String) -> (r: HttpTcpResponse)
    ensures
        r.request_id@ == request_id@,
        r.status_code == 200,
        header_map(r.headers@) == json_content_headers(),
        r.body matches Some(b) && b@ == encode_utf8(api_json("success"@, Some(data@), None)),
{
    json_response(request_id, 200, Some(data), None)
}

/// A created response (201) with a payload already rendered as JSON.
pub fn created(request_id: &str, data: String) -> (r: HttpTcpResponse)
    ensures
        r.request_id@ == request_id@,
        r.status_code == 201,
        header_map(r.headers@) == json_content_headers(),
        r.body matches Some(b) && b@ == encode_utf8(api_json("success"@, Some(data@), None)),
{
    json_response(request_id, 201, Some(data), None)
}

/// An error response: status `error`, no data, and the message, whatever
/// the status code.
pub fn error_response(request_id: &str, status_code: u16, message: &str) -> (r: HttpTcpResponse)
    ensures
        r.request_id@ == request_id@,
        r.status_code == status_code,
        header_map(r.headers@) == json_content_headers(),
        distinct_names(r.headers@),
        r.body matches Some(b) && b@ == encode_utf8(api_json("error"@, None, Some(message@))),
{
    let text = api_json_text("error", &None, &Some(owned(message)));
    HttpTcpResponse {
        request_id: owned(request_id),
        status_code,
        headers: json_headers(),
        body: Some(string_bytes(text.as_str())),
    }
}

/// A not-found response (404) with the message `Not found: <path>`.
pub fn not_found(request_id: &str, path: &str) -> (r: HttpTcpResponse)
    ensures
        r.request_id@ == request_id@,
        r.status_code == 404,
        header_map(r.headers@) == json_content_headers(),
        r.body matches Some(b) && b@ == encode_utf8(api_json("error"@, None, Some("Not found: "@ + path@))),
{
    let m = concat2("Not found: ", path);
    error_response(request_id, 404, m.as_str())
}

/// A bad-request response (400) with the given message.
pub fn bad_request(request_id: &str, message: &str) -> (r: HttpTcpResponse)
    ensures
        r.request_id@ == request_id@,
        r.status_code == 400,
        header_map(r.headers@) == json_content_headers(),
        r.body matches Some(b) && b@ == encode_utf8(api_json("error"@, None, Some(message@))),
{
    error_response(request_id, 400, message)
}

/// An internal-error response (500) with the given message.
pub fn internal_error(request_id: &str, message: &str) -> (r: HttpTcpResponse)
    ensures
        r.request_id@ == request_id@,
        r.status_code == 500,
        header_map(r.headers@) == json_content_headers(),
        r.body matches Some(b) && b@ == encode_utf8(api_json("error"@, None, Some(message@))),
{
    error_response(request_id, 500, message)
}

/// The body a JSON-bodied request must carry: the bytes, or the message
/// `Request body is required`.
pub fn required_body(request: &HttpTcpRequest) -> (r: Result<&Vec<u8>, String>)
    ensures
        match request.body {
            Some(b) => r == Ok::<&Vec<u8>, String>(&b),
            None => r matches Err(m) && m@ == "Request body is required"@,
        },
{
    match &request.body {
        Some(b) => Ok(b),
        None => Err(owned("Request body is required")),
    }
}

} // verus!
