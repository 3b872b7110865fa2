//! Requests to other modules over a TCP channel: request builders, the
//! client that resolves URLs against a base URL, the reading of responses,
//! and a pool of named clients.

use crate::headers::{clone_pairs, distinct_names, header_map, pairs_of, put_all, put_all_list, put_list, put_pair};
use crate::http_tcp::{HttpTcpRequest, HttpTcpResponse};
use crate::sys::{duration_debug, duration_debug_text, duration_from_secs, duration_nanos, duration_secs, hyphenated_uuid_text, new_uuid_string};
use crate::text::{chars_of, concat2, concat3, decimal, owned, str_eq, str_starts_with, string_from_utf8, u64_to_string};
use crate::uri::find_char;
use std::sync::Arc;
use std::time::Duration;
use vstd::prelude::*;
use vstd::utf8::*;

verus! {

/// Where a TCP channel connects to.
#[derive(Debug, Clone)]
pub struct ConnectionConfig {
    pub host: String,
    pub port: u16,
}

impl ConnectionConfig {
    /// A configuration for `host:port`.
    pub fn new(host: &str, port: u16) -> (r: Self)
        ensures
            r.host@ == host@,
            r.port == port,
    {
        ConnectionConfig { host: owned(host), port }
    }
}

/// A message channel to the orchestrator, as the library sees it: the
/// configuration it is opened with. The socket belongs to the application.
#[derive(Debug, Clone)]
pub struct TcpChannel {
    pub config: ConnectionConfig,
}

/// Errors of the HTTP-over-TCP client.
#[derive(Debug)]
pub enum HttpClientError {
    /// Connection error.
    ConnectionError(String),
    /// Request timeout.
    Timeout(Duration),
    /// The server answered with a status other than 2xx.
    ResponseError { status: u16, message: String },
    /// Serialization error (its message).
    SerializationError(String),
    /// I/O error (its message).
    IoError(String),
    /// SDK error.
    SdkError(String),
    /// Other error.
    Other(String),
}

/// The message of a client error; a timeout shows the duration as `Debug`
/// renders it.
pub open spec fn client_error_text(e: HttpClientError) -> Seq<char> {
    match e {
        HttpClientError::ConnectionError(m) => "Connection error: "@ + m@,
        HttpClientError::Timeout(d) => "Request timed out after "@ + duration_debug_text(d),
        HttpClientError::ResponseError { status, message } => "Response error ("@ + decimal(status as nat)
            + "): "@ + message@,
        HttpClientError::SerializationError(m) => "Serialization error: "@ + m@,
        HttpClientError::IoError(m) => "I/O error: "@ + m@,
        HttpClientError::SdkError(m) => "SDK error: "@ + m@,
        HttpClientError::Other(m) => "Error: "@ + m@,
    }
}

impl HttpClientError {
    /// The message of this error.
    pub fn message(&self) -> (r: String)
        ensures
            r@ == client_error_text(*self),
    {
        match self {
            HttpClientError::ConnectionError(m) => concat2("Connection error: ", m.as_str()),
            HttpClientError::Timeout(d) => {
                let t = duration_debug(d);
                concat2("Request timed out after ", t.as_str())
            },
            HttpClientError::ResponseError { status, message } => {
                let n = u64_to_string(*status as u64);
                let a = concat3("Response error (", n.as_str(), "): ");
                concat2(a.as_str(), message.as_str())
            },
            HttpClientError::SerializationError(m) => concat2("Serialization error: ", m.as_str()),
            HttpClientError::IoError(m) => concat2("I/O error: ", m.as_str()),
            HttpClientError::SdkError(m) => concat2("SDK error: ", m.as_str()),
            HttpClientError::Other(m) => concat2("Error: ", m.as_str()),
        }
    }
}

/// The default timeout of a request, in seconds.
pub const DEFAULT_TIMEOUT_SECS: u64 = 30;

/// `Duration` clone (declared with the standard library's own `Clone`).
fn copy_duration(d: &Duration) -> (r: Duration)
    ensures
        r == *d,
{
    d.clone()
}

/// `Arc::clone`: another pointer to the same value.
#[verifier::external_body]
fn share<T>(a: &Arc<T>) -> (r: Arc<T>)
    ensures
        r == *a,
{
    Arc::clone(a)
}

// ---------------------------------------------------------------------------
// Request builder
// ---------------------------------------------------------------------------

/// `key=value` pairs joined by `&`, in order.
pub open spec fn query_string(q: Seq<(Seq<char>, Seq<char>)>) -> Seq<char>
    decreases q.len(),
{
    if q.len() == 0 {
        Seq::empty()
    } else {
        let item = q.last().0 + "="@ + q.last().1;
        if q.len() == 1 {
            item
        } else {
            query_string(q.drop_last()) + "&"@ + item
        }
    }
}

/// The URI with query parameters appended: after `?`, or after `&` when the
/// URI already has a query, or directly when it already ends in `?`.
pub open spec fn uri_with_query(uri: Seq<char>, q: Seq<(Seq<char>, Seq<char>)>) -> Seq<char> {
    if q.len() == 0 {
        uri
    } else {
        let sep: Seq<char> = if uri.contains('?') {
            if uri.last() == '?' {
                Seq::empty()
            } else {
                "&"@
            }
        } else {
            "?"@
        };
        uri + sep + query_string(q)
    }
}

/// Builder for HTTP-over-TCP requests.
pub struct RequestBuilder {
    method: String,
    uri: String,
    channel: Arc<TcpChannel>,
    headers: Vec<(String, String)>,
    query_params: Vec<(String, String)>,
    body: Option<Vec<u8>>,
    timeout: Duration,
    retries: u32,
}

impl RequestBuilder {
    /// The HTTP method.
    pub closed spec fn method_text(&self) -> Seq<char> {
        self.method@
    }

    /// The request URI, before query parameters are added.
    pub closed spec fn uri_text(&self) -> Seq<char> {
        self.uri@
    }

    /// The channel the request will be sent on.
    pub closed spec fn channel_of(&self) -> TcpChannel {
        *self.channel
    }

    /// The headers, as a name/value list.
    pub closed spec fn header_list(&self) -> Seq<(String, String)> {
        self.headers@
    }

    /// The query parameters, as a name/value list.
    pub closed spec fn query_list(&self) -> Seq<(String, String)> {
        self.query_params@
    }

    /// The body, if set.
    pub closed spec fn body_bytes(&self) -> Option<Seq<u8>> {
        match self.body {
            Some(b) => Some(b@),
            None => None,
        }
    }

    /// The timeout.
    pub closed spec fn timeout_value(&self) -> Duration {
        self.timeout
    }

    /// The number of attempts.
    pub closed spec fn retry_count(&self) -> u32 {
        self.retries
    }

    /// No header and no query parameter is named twice.
    pub open spec fn wf(&self) -> bool {
        distinct_names(self.header_list()) && distinct_names(self.query_list())
    }

    /// A builder with no headers, no query parameters, no body, the default
    /// timeout and one attempt.
    pub(crate) fn new(method: &str, uri: String, channel: Arc<TcpChannel>) -> (r: Self)
        ensures
            r.wf(),
            r.method_text() == method@,
            r.uri_text() == uri@,
            r.channel_of() == *channel,
            r.header_list().len() == 0,
            r.query_list().len() == 0,
            r.body_bytes() is None,
            duration_secs(r.timeout_value()) == DEFAULT_TIMEOUT_SECS,
            duration_nanos(r.timeout_value()) == 0,
            r.retry_count() == 1,
    {
        RequestBuilder {
            method: owned(method),
            uri,
            channel,
            headers: Vec::new(),
            query_params: Vec::new(),
            body: None,
            timeout: duration_from_secs(DEFAULT_TIMEOUT_SECS),
            retries: 1,
        }
    }

    /// Sets one header.
    pub fn header(self, key: &str, value: &str) -> (r: Self)
        requires
            self.wf(),
        ensures
            r.wf(),
            header_map(r.header_list()) == header_map(self.header_list()).insert(key@, value@),
            pairs_of(r.header_list()) == put_list(pairs_of(self.header_list()), key@, value@),
            r.method_text() == self.method_text(),
            r.uri_text() == self.uri_text(),
            r.channel_of() == self.channel_of(),
            r.query_list() == self.query_list(),
            r.body_bytes() == self.body_bytes(),
            r.timeout_value() == self.timeout_value(),
            r.retry_count() == self.retry_count(),
    {
        let mut r = self;
        put_pair(&mut r.headers, owned(key), owned(value));
        r
    }

    /// Sets every header of `headers`, later ones taking the place of earlier.
    pub fn headers(self, headers: Vec<(String, String)>) -> (r: Self)
        requires
            self.wf(),
        ensures
            r.wf(),
            header_map(r.header_list()) == header_map(self.header_list()).union_prefer_right(header_map(headers@)),
            pairs_of(r.header_list()) == put_all_list(pairs_of(self.header_list()), pairs_of(headers@)),
            r.method_text() == self.method_text(),
            r.uri_text() == self.uri_text(),
            r.channel_of() == self.channel_of(),
            r.query_list() == self.query_list(),
            r.body_bytes() == self.body_bytes(),
            r.timeout_value() == self.timeout_value(),
            r.retry_count() == self.retry_count(),
    {
        let mut r = self;
        put_all(&mut r.headers, headers);
        r
    }

    /// Sets one query parameter.
    pub fn query(self, key: &str, value: &str) -> (r: Self)
        requires
            self.wf(),
        ensures
            r.wf(),
            header_map(r.query_list()) == header_map(self.query_list()).insert(key@, value@),
            pairs_of(r.query_list()) == put_list(pairs_of(self.query_list()), key@, value@),
            r.method_text() == self.method_text(),
            r.uri_text() == self.uri_text(),
            r.channel_of() == self.channel_of(),
            r.header_list() == self.header_list(),
            r.body_bytes() == self.body_bytes(),
            r.timeout_value() == self.timeout_value(),
            r.retry_count() == self.retry_count(),
    {
        let mut r = self;
        put_pair(&mut r.query_params, owned(key), owned(value));
        r
    }

    /// Sets every query parameter of `params`, later ones taking the place of
    /// earlier.
    pub fn queries(self, params: Vec<(String, String)>) -> (r: Self)
        requires
            self.wf(),
        ensures
            r.wf(),
            header_map(r.query_list()) == header_map(self.query_list()).union_prefer_right(header_map(params@)),
            pairs_of(r.query_list()) == put_all_list(pairs_of(self.query_list()), pairs_of(params@)),
            r.method_text() == self.method_text(),
            r.uri_text() == self.uri_text(),
            r.channel_of() == self.channel_of(),
            r.header_list() == self.header_list(),
            r.body_bytes() == self.body_bytes(),
            r.timeout_value() == self.timeout_value(),
            r.retry_count() == self.retry_count(),
    {
        let mut r = self;
        put_all(&mut r.query_params, params);
        r
    }

    /// Sets the body.
    pub fn body(self, body: Vec<u8>) -> (r: Self)
        requires
            self.wf(),
        ensures
            r.wf(),
            r.body_bytes() == Some(body@),
            r.method_text() == self.method_text(),
            r.uri_text() == self.uri_text(),
            r.channel_of() == self.channel_of(),
            r.header_list() == self.header_list(),
            r.query_list() == self.query_list(),
            r.timeout_value() == self.timeout_value(),
            r.retry_count() == self.retry_count(),
    {
        let mut r = self;
        r.body = Some(body);
        r
    }

    /// Sets a JSON body (already rendered) and `Content-Type: application/json`.
    pub fn json_text(self, json: String) -> (r: Self)
        requires
            self.wf(),
        ensures
            r.wf(),
            header_map(r.header_list()) == header_map(self.header_list()).insert("Content-Type"@, "application/json"@),
            r.body_bytes() == Some(encode_utf8(json@)),
            r.method_text() == self.method_text(),
            r.uri_text() == self.uri_text(),
            r.channel_of() == self.channel_of(),
            r.query_list() == self.query_list(),
            r.timeout_value() == self.timeout_value(),
            r.retry_count() == self.retry_count(),
    {
        let mut r = self;
        put_pair(&mut r.headers, owned("Content-Type"), owned("application/json"));
        r.body = Some(json.as_str().as_bytes_vec());
        r
    }

    /// Sets the timeout.
    pub fn timeout(self, timeout: Duration) -> (r: Self)
        requires
            self.wf(),
        ensures
            r.wf(),
            r.timeout_value() == timeout,
            r.method_text() == self.method_text(),
            r.uri_text() == self.uri_text(),
            r.channel_of() == self.channel_of(),
            r.header_list() == self.header_list(),
            r.query_list() == self.query_list(),
            r.body_bytes() == self.body_bytes(),
            r.retry_count() == self.retry_count(),
    {
        let mut r = self;
        r.timeout = timeout;
        r
    }

    /// Sets the number of attempts.
    pub fn retries(self, retries: u32) -> (r: Self)
        requires
            self.wf(),
        ensures
            r.wf(),
            r.retry_count() == retries,
            r.method_text() == self.method_text(),
            r.uri_text() == self.uri_text(),
            r.channel_of() == self.channel_of(),
            r.header_list() == self.header_list(),
            r.query_list() == self.query_list(),
            r.body_bytes() == self.body_bytes(),
            r.timeout_value() == self.timeout_value(),
    {
        let mut r = self;
        r.retries = retries;
        r
    }

    /// The timeout of the request.
    pub fn timeout_duration(&self) -> (r: Duration)
        ensures
            r == self.timeout_value(),
    {
        copy_duration(&self.timeout)
    }

    /// The channel the request is sent on.
    pub fn channel(&self) -> (r: &Arc<TcpChannel>)
        ensures
            **r == self.channel_of(),
    {
        &self.channel
    }

    /// The final URI: the query parameters appended as `key=value` pairs.
    pub fn build_uri(&self) -> (r: String)
        ensures
            r@ == uri_with_query(self.uri_text(), pairs_of(self.query_list())),
    {
        let q = &self.query_params;
        if q.len() == 0 {
            return self.uri.clone();
        }
        let cs = chars_of(self.uri.as_str());
        let sep = match find_char(cs.as_slice(), '?') {
            Some(_) => {
                if cs[cs.len() - 1] == '?' {
                    ""
                } else {
                    "&"
                }
            },
            None => "?",
        };
        proof {
            reveal_strlit("");
        }
        let joined = join_query(q);
        concat3(self.uri.as_str(), sep, joined.as_str())
    }

    /// The request this builder describes, with a fresh identifier.
    pub fn build_request(&self) -> (r: HttpTcpRequest)
        requires
            self.wf(),
        ensures
            r.method@ == self.method_text(),
            r.uri@ == uri_with_query(self.uri_text(), pairs_of(self.query_list())),
            header_map(r.headers@) == header_map(self.header_list()),
            distinct_names(r.headers@),
            hyphenated_uuid_text(r.request_id@),
            match (r.body, self.body_bytes()) {
                (Some(b), Some(c)) => b@ == c,
                (None, None) => true,
                _ => false,
            },
    {
        let uri = self.build_uri();
        let id = new_uuid_string();
        let request = HttpTcpRequest::new(self.method.as_str(), uri.as_str());
        proof {
            assert(header_map(request.headers@) =~= Map::empty());
            assert(distinct_names(request.headers@));
        }
        let request = request.with_headers(clone_pairs(&self.headers));
        assert(header_map(request.headers@) =~= header_map(self.headers@));
        let request = request.with_request_id(id.as_str());
        match &self.body {
            Some(b) => request.with_body(b.clone()),
            None => request,
        }
    }
}

/// The `key=value` pairs of a name/value list joined by `&`.
fn join_query(q: &Vec<(String, String)>) -> (r: String)
    ensures
        r@ == query_string(pairs_of(q@)),
{
    let mut r = String::new();
    let mut i: usize = 0;
    while i < q.len()
        invariant
            0 <= i <= q.len(),
            r@ == query_string(pairs_of(q@).take(i as int)),
        decreases q.len() - i,
    {
        let item = concat3(q[i].0.as_str(), "=", q[i].1.as_str());
        let ghost prev = pairs_of(q@).take(i as int);
        proof {
            assert(pairs_of(q@).take(i + 1).drop_last() =~= prev);
            assert(pairs_of(q@).take(i + 1).last() == (q@[i as int].0@, q@[i as int].1@));
        }
        if i == 0 {
            r = item;
        } else {
            r = concat3(r.as_str(), "&", item.as_str());
        }
        i = i + 1;
    }
    assert(pairs_of(q@).take(q@.len() as int) =~= pairs_of(q@));
    r
}

// ---------------------------------------------------------------------------
// Reading responses
// ---------------------------------------------------------------------------

/// The message carried by a failed response: its body as text, or a note
/// when there is no body or it is not UTF-8.
pub open spec fn failure_message(body: Option<Vec<u8>>) -> Seq<char> {
    match body {
        None => "No response body"@,
        Some(b) => if valid_utf8(b@) {
            decode_utf8(b@)
        } else {
            "Failed to decode response body"@
        },
    }
}

/// The error for a response whose status is not 2xx.
fn failure_of(response: HttpTcpResponse) -> (r: HttpClientError)
    ensures
        r matches HttpClientError::ResponseError { status, message }
            && status == response.status_code && message@ == failure_message(response.body),
{
    let message = match response.body {
        None => owned("No response body"),
        Some(b) => match string_from_utf8(b) {
            Ok(s) => s,
            Err(_) => owned("Failed to decode response body"),
        },
    };
    HttpClientError::ResponseError { status: response.status_code, message }
}

/// The text of a response: an error carrying the status and body for a
/// status other than 2xx; otherwise the body decoded as UTF-8 (an error if it
/// is not UTF-8), or the empty text without a body.
pub fn response_text(response: HttpTcpResponse) -> (r: Result<String, HttpClientError>)
    ensures
        !(200 <= response.status_code < 300) ==> (r matches Err(HttpClientError::ResponseError { status, message })
            && status == response.status_code && message@ == failure_message(response.body)),
        (200 <= response.status_code < 300) ==> match response.body {
            None => r matches Ok(s) && s@.len() == 0,
            Some(b) => if valid_utf8(b@) {
                r matches Ok(s) && s@ == decode_utf8(b@)
            } else {
                r matches Err(HttpClientError::Other(m)) && m@ == "Failed to decode response body as UTF-8"@
            },
        },
{
    if !response.is_success() {
        return Err(failure_of(response));
    }
    match response.body {
        Some(b) => match string_from_utf8(b) {
            Ok(s) => Ok(s),
            Err(_) => Err(HttpClientError::Other(owned("Failed to decode response body as UTF-8"))),
        },
        None => Ok(String::new()),
    }
}

/// The JSON body of a response, still to be parsed: an error carrying the
/// status and body for a status other than 2xx, the bytes of the body, or an
/// error when there is no body.
pub fn response_json_body(response: HttpTcpResponse) -> (r: Result<Vec<u8>, HttpClientError>)
    ensures
        !(200 <= response.status_code < 300) ==> (r matches Err(HttpClientError::ResponseError { status, message })
            && status == response.status_code && message@ == failure_message(response.body)),
        (200 <= response.status_code < 300) ==> match response.body {
            None => r matches Err(HttpClientError::Other(m)) && m@ == "No response body"@,
            Some(b) => r == Ok::<Vec<u8>, HttpClientError>(b),
        },
{
    if !response.is_success() {
        return Err(failure_of(response));
    }
    match response.body {
        Some(b) => Ok(b),
        None => Err(HttpClientError::Other(owned("No response body"))),
    }
}

// ---------------------------------------------------------------------------
// Client
// ---------------------------------------------------------------------------

/// Whether `p` is a prefix of `s`.
pub open spec fn has_prefix(s: Seq<char>, p: Seq<char>) -> bool {
    p.len() <= s.len() && s.subrange(0, p.len() as int) == p
}

/// A URL resolved against an optional base URL: absolute `http://` and
/// `https://` URLs stand; otherwise the base and the URL are joined with
/// exactly one `/` between them where either has one, or with one added
/// where neither has.
pub open spec fn resolved_url(base: Option<Seq<char>>, url: Seq<char>) -> Seq<char> {
    if has_prefix(url, "http://"@) || has_prefix(url, "https://"@) {
        url
    } else {
        match base {
            Some(b) => {
                let b_slash = b.len() > 0 && b.last() == '/';
                let u_slash = url.len() > 0 && url[0] == '/';
                if !b_slash && !u_slash {
                    b + "/"@ + url
                } else if b_slash && u_slash {
                    b.drop_last() + url
                } else {
                    b + url
                }
            },
            None => url,
        }
    }
}

/// Client for making HTTP-over-TCP requests.
#[derive(Debug)]
pub struct HttpTcpClient {
    config: ConnectionConfig,
    channel: Arc<TcpChannel>,
    default_timeout: Duration,
    default_retries: u32,
    base_url: Option<String>,
}

impl HttpTcpClient {
    /// The base URL, if set.
    pub closed spec fn base(&self) -> Option<Seq<char>> {
        match self.base_url {
            Some(b) => Some(b@),
            None => None,
        }
    }

    /// The default timeout of requests.
    pub closed spec fn timeout_default(&self) -> Duration {
        self.default_timeout
    }

    /// The default number of attempts.
    pub closed spec fn retries_default(&self) -> u32 {
        self.default_retries
    }

    /// The channel requests are sent on.
    pub closed spec fn channel_of(&self) -> TcpChannel {
        *self.channel
    }

    /// The configuration of the connection.
    pub closed spec fn config_of(&self) -> ConnectionConfig {
        self.config
    }

    /// A client on an open channel: no base URL, a 30 second timeout and one
    /// attempt.
    pub fn with_channel(channel: Arc<TcpChannel>, config: ConnectionConfig) -> (r: Self)
        ensures
            r.base() is None,
            duration_secs(r.timeout_default()) == DEFAULT_TIMEOUT_SECS,
            duration_nanos(r.timeout_default()) == 0,
            r.retries_default() == 1,
            r.channel_of() == *channel,
            r.config_of() == config,
    {
        HttpTcpClient {
            config,
            channel,
            default_timeout: duration_from_secs(DEFAULT_TIMEOUT_SECS),
            default_retries: 1,
            base_url: None,
        }
    }

    /// Sets the base URL.
    pub fn with_base_url(self, base_url: &str) -> (r: Self)
        ensures
            r.base() == Some(base_url@),
            r.timeout_default() == self.timeout_default(),
            r.retries_default() == self.retries_default(),
            r.channel_of() == self.channel_of(),
            r.config_of() == self.config_of(),
    {
        let mut r = self;
        r.base_url = Some(owned(base_url));
        r
    }

    /// Sets the default timeout.
    pub fn with_default_timeout(self, timeout: Duration) -> (r: Self)
        ensures
            r.timeout_default() == timeout,
            r.base() == self.base(),
            r.retries_default() == self.retries_default(),
            r.channel_of() == self.channel_of(),
            r.config_of() == self.config_of(),
    {
        let mut r = self;
        r.default_timeout = timeout;
        r
    }

    /// Sets the default number of attempts.
    pub fn with_default_retries(self, retries: u32) -> (r: Self)
        ensures
            r.retries_default() == retries,
            r.base() == self.base(),
            r.timeout_default() == self.timeout_default(),
            r.channel_of() == self.channel_of(),
            r.config_of() == self.config_of(),
    {
        let mut r = self;
        r.default_retries = retries;
        r
    }

    /// The configuration of the connection.
    pub fn config(&self) -> (r: &ConnectionConfig)
        ensures
            *r == self.config_of(),
    {
        &self.config
    }

    /// Resolves a URL against the base URL (see `resolved_url`).
    pub fn resolve_url(&self, url: &str) -> (r: String)
        ensures
            r@ == resolved_url(self.base(), url@),
    {
        if str_starts_with(url, "http://") || str_starts_with(url, "https://") {
            return owned(url);
        }
        match &self.base_url {
            Some(base) => {
                let bc = chars_of(base.as_str());
                let uc = chars_of(url);
                let b_slash = bc.len() > 0 && bc[bc.len() - 1] == '/';
                let u_slash = uc.len() > 0 && uc[0] == '/';
                if !b_slash && !u_slash {
                    concat3(base.as_str(), "/", url)
                } else if b_slash && u_slash {
                    let n = bc.len() - 1;
                    let head = base.as_str().substring_char(0, n);
                    assert(head@ =~= base@.drop_last());
                    concat2(head, url)
                } else {
                    concat2(base.as_str(), url)
                }
            },
            None => owned(url),
        }
    }

    /// A request with the given method to the resolved URL, with the
    /// client's default timeout and number of attempts.
    fn request(&self, method: &str, url: &str) -> (r: RequestBuilder)
        ensures
            r.wf(),
            r.method_text() == method@,
            r.uri_text() == resolved_url(self.base(), url@),
            r.channel_of() == self.channel_of(),
            r.header_list().len() == 0,
            r.query_list().len() == 0,
            r.body_bytes() is None,
            r.timeout_value() == self.timeout_default(),
            r.retry_count() == self.retries_default(),
    {
        let u = self.resolve_url(url);
        RequestBuilder::new(method, u, share(&self.channel)).timeout(copy_duration(&self.default_timeout)).retries(
            self.default_retries,
        )
    }

    /// A GET request.
    pub fn get(&self, url: &str) -> (r: RequestBuilder)
        ensures
            r.wf(),
            r.method_text() == "GET"@,
            r.uri_text() == resolved_url(self.base(), url@),
            r.channel_of() == self.channel_of(),
            r.header_list().len() == 0,
            r.query_list().len() == 0,
            r.body_bytes() is None,
            r.timeout_value() == self.timeout_default(),
            r.retry_count() == self.retries_default(),
    {
        self.request("GET", url)
    }

    /// A POST request.
    pub fn post(&self, url: &str) -> (r: RequestBuilder)
        ensures
            r.wf(),
            r.method_text() == "POST"@,
            r.uri_text() == resolved_url(self.base(), url@),
            r.channel_of() == self.channel_of(),
            r.header_list().len() == 0,
            r.query_list().len() == 0,
            r.body_bytes() is None,
            r.timeout_value() == self.timeout_default(),
            r.retry_count() == self.retries_default(),
    {
        self.request("POST", url)
    }

    /// A PUT request.
    pub fn put(&self, url: &str) -> (r: RequestBuilder)
        ensures
            r.wf(),
            r.method_text() == "PUT"@,
            r.uri_text() == resolved_url(self.base(), url@),
            r.channel_of() == self.channel_of(),
            r.header_list().len() == 0,
            r.query_list().len() == 0,
            r.body_bytes() is None,
            r.timeout_value() == self.timeout_default(),
            r.retry_count() == self.retries_default(),
    {
        self.request("PUT", url)
    }

    /// A DELETE request.
    pub fn delete(&self, url: &str) -> (r: RequestBuilder)
        ensures
            r.wf(),
            r.method_text() == "DELETE"@,
            r.uri_text() == resolved_url(self.base(), url@),
            r.channel_of() == self.channel_of(),
            r.header_list().len() == 0,
            r.query_list().len() == 0,
            r.body_bytes() is None,
            r.timeout_value() == self.timeout_default(),
            r.retry_count() == self.retries_default(),
    {
        self.request("DELETE", url)
    }

    /// A PATCH request.
    pub fn patch(&self, url: &str) -> (r: RequestBuilder)
        ensures
            r.wf(),
            r.method_text() == "PATCH"@,
            r.uri_text() == resolved_url(self.base(), url@),
            r.channel_of() == self.channel_of(),
            r.header_list().len() == 0,
            r.query_list().len() == 0,
            r.body_bytes() is None,
            r.timeout_value() == self.timeout_default(),
            r.retry_count() == self.retries_default(),
    {
        self.request("PATCH", url)
    }

    /// A HEAD request.
    pub fn head(&self, url: &str) -> (r: RequestBuilder)
        ensures
            r.wf(),
            r.method_text() == "HEAD"@,
            r.uri_text() == resolved_url(self.base(), url@),
            r.channel_of() == self.channel_of(),
            r.header_list().len() == 0,
            r.query_list().len() == 0,
            r.body_bytes() is None,
            r.timeout_value() == self.timeout_default(),
            r.retry_count() == self.retries_default(),
    {
        self.request("HEAD", url)
    }

    /// An OPTIONS request.
    pub fn options(&self, url: &str) -> (r: RequestBuilder)
        ensures
            r.wf(),
            r.method_text() == "OPTIONS"@,
            r.uri_text() == resolved_url(self.base(), url@),
            r.channel_of() == self.channel_of(),
            r.header_list().len() == 0,
            r.query_list().len() == 0,
            r.body_bytes() is None,
            r.timeout_value() == self.timeout_default(),
            r.retry_count() == self.retries_default(),
    {
        self.request("OPTIONS", url)
    }
}

// ---------------------------------------------------------------------------
// Client pool
// ---------------------------------------------------------------------------

/// The clients of a pool by name: a later entry for a name wins.
pub open spec fn client_map(s: Seq<(String, Arc<HttpTcpClient>)>) -> Map<Seq<char>, Arc<HttpTcpClient>>
    decreases s.len(),
{
    if s.len() == 0 {
        Map::empty()
    } else {
        client_map(s.drop_last()).insert(s.last().0@, s.last().1)
    }
}

/// No name occurs twice among the entries.
pub open spec fn distinct_client_names(s: Seq<(String, Arc<HttpTcpClient>)>) -> bool {
    forall|i: int, j: int| 0 <= i < j < s.len() ==> s[i].0@ != s[j].0@
}

/// The names of the entries, in order.
pub open spec fn entry_names(s: Seq<(String, Arc<HttpTcpClient>)>) -> Seq<Seq<char>> {
    s.map_values(|e: (String, Arc<HttpTcpClient>)| e.0@)
}

proof fn lemma_client_map_dom(s: Seq<(String, Arc<HttpTcpClient>)>)
    ensures
        client_map(s).dom().finite(),
        forall|k: Seq<char>| #[trigger] client_map(s).dom().contains(k) <==> exists|i: int| 0 <= i < s.len() && #[trigger] s[i].0@ == k,
    decreases s.len(),
{
    if s.len() > 0 {
        let t = s.drop_last();
        lemma_client_map_dom(t);
        assert forall|k: Seq<char>| #[trigger] client_map(s).dom().contains(k) <==> exists|i: int| 0 <= i < s.len() && #[trigger] s[i].0@ == k by {
            if client_map(s).dom().contains(k) {
                if k == s.last().0@ {
                    assert(s[s.len() - 1].0@ == k);
                } else {
                    let i = choose|i: int| 0 <= i < t.len() && #[trigger] t[i].0@ == k;
                    assert(s[i].0@ == k);
                }
            }
            if exists|i: int| 0 <= i < s.len() && #[trigger] s[i].0@ == k {
                let i = choose|i: int| 0 <= i < s.len() && #[trigger] s[i].0@ == k;
                if i < s.len() - 1 {
                    assert(t[i].0@ == k);
                }
            }
        }
    }
}

proof fn lemma_client_map_len(s: Seq<(String, Arc<HttpTcpClient>)>)
    requires
        distinct_client_names(s),
    ensures
        client_map(s).dom().len() == s.len(),
    decreases s.len(),
{
    if s.len() > 0 {
        let t = s.drop_last();
        lemma_client_map_len(t);
        lemma_client_map_dom(t);
        if client_map(t).dom().contains(s.last().0@) {
            let i = choose|i: int| 0 <= i < t.len() && #[trigger] t[i].0@ == s.last().0@;
            assert(s[i].0@ == s[s.len() - 1].0@);
        }
    }
}

proof fn lemma_client_map_remove(s: Seq<(String, Arc<HttpTcpClient>)>, i: int)
    requires
        distinct_client_names(s),
        0 <= i < s.len(),
    ensures
        client_map(s.remove(i)) == client_map(s).remove(s[i].0@),
        distinct_client_names(s.remove(i)),
    decreases s.len(),
{
    let t = s.drop_last();
    lemma_client_map_dom(t);
    if i == s.len() - 1 {
        assert(s.remove(i) =~= t);
        if client_map(t).dom().contains(s.last().0@) {
            let j = choose|j: int| 0 <= j < t.len() && #[trigger] t[j].0@ == s.last().0@;
            assert(s[j].0@ == s[s.len() - 1].0@);
        }
        assert(client_map(s).remove(s[i].0@) =~= client_map(t));
    } else {
        lemma_client_map_remove(t, i);
        assert(s.remove(i).drop_last() =~= t.remove(i));
        assert(s.remove(i).last() == s.last());
        assert(s[i].0@ != s.last().0@);
        assert(client_map(s.remove(i)) =~= client_map(s).remove(s[i].0@));
    }
}

/// A pool of named clients.
pub struct HttpClientPool {
    clients: Vec<(String, Arc<HttpTcpClient>)>,
}

impl View for HttpClientPool {
    type V = Map<Seq<char>, Arc<HttpTcpClient>>;

    closed spec fn view(&self) -> Self::V {
        client_map(self.clients@)
    }
}

impl HttpClientPool {
    /// No name is held twice.
    pub closed spec fn wf(&self) -> bool {
        distinct_client_names(self.clients@)
    }

    /// The names held, in the order they were added.
    pub closed spec fn names(&self) -> Seq<Seq<char>> {
        entry_names(self.clients@)
    }

    /// The names of a well-formed pool are its keys, each once, so the pool
    /// holds as many clients as it has names.
    pub proof fn lemma_names_are_keys(&self)
        requires
            self.wf(),
        ensures
            self@.dom().finite(),
            self.names().no_duplicates(),
            self.names().to_set() == self@.dom(),
            self.names().len() == self@.dom().len(),
    {
        lemma_client_map_dom(self.clients@);
        lemma_client_map_len(self.clients@);
        let n = self.names();
        assert forall|k: Seq<char>| #[trigger] n.to_set().contains(k) <==> self@.dom().contains(k) by {
            if n.to_set().contains(k) {
                let i = choose|i: int| 0 <= i < n.len() && n[i] == k;
                assert(self.clients@[i].0@ == k);
            }
            if self@.dom().contains(k) {
                let i = choose|i: int| 0 <= i < self.clients@.len() && #[trigger] self.clients@[i].0@ == k;
                assert(n[i] == k);
            }
        }
        assert(n.to_set() =~= self@.dom());
        assert forall|a: int, b: int| 0 <= a < n.len() && 0 <= b < n.len() && a != b implies n[a] != n[b] by {
            if a < b {
                assert(self.clients@[a].0@ != self.clients@[b].0@);
            } else {
                assert(self.clients@[b].0@ != self.clients@[a].0@);
            }
        }
    }

    /// An empty pool.
    pub fn new() -> (r: Self)
        ensures
            r.wf(),
            r@ == Map::<Seq<char>, Arc<HttpTcpClient>>::empty(),
            r.names().len() == 0,
    {
        let r = HttpClientPool { clients: Vec::new() };
        assert(r@ =~= Map::<Seq<char>, Arc<HttpTcpClient>>::empty());
        assert(r.names() =~= Seq::<Seq<char>>::empty());
        r
    }

    fn position(&self, name: &str) -> (r: Option<usize>)
        ensures
            match r {
                Some(i) => i < self.clients@.len() && self.clients@[i as int].0@ == name@,
                None => forall|j: int| 0 <= j < self.clients@.len() ==> #[trigger] self.clients@[j].0@ != name@,
            },
    {
        let mut i: usize = 0;
        while i < self.clients.len()
            invariant
                0 <= i <= self.clients.len(),
                forall|j: int| 0 <= j < i ==> #[trigger] self.clients@[j].0@ != name@,
            decreases self.clients.len() - i,
        {
            if str_eq(self.clients[i].0.as_str(), name) {
                return Some(i);
            }
            i = i + 1;
        }
        None
    }

    /// Adds a client under a name, in place of any client held under it.
    pub fn add_client(&mut self, name: &str, client: HttpTcpClient)
        requires
            old(self).wf(),
        ensures
            final(self).wf(),
            final(self)@.dom() == old(self)@.dom().insert(name@),
            *final(self)@[name@] == client,
            forall|k: Seq<char>| k != name@ && #[trigger] old(self)@.contains_key(k) ==> final(self)@[k] == old(self)@[k],
            final(self)@.dom().len() == old(self)@.dom().len() + if old(self)@.contains_key(name@) {
                0int
            } else {
                1int
            },
    {
        proof {
            old(self).lemma_names_are_keys();
        }
        let ghost before = self.clients@;
        match self.position(name) {
            Some(i) => {
                proof {
                    lemma_client_map_remove(before, i as int);
                }
                let _ = self.clients.remove(i);
            },
            None => {
                proof {
                    lemma_client_map_dom(before);
                    assert(!client_map(before).dom().contains(name@));
                    assert(client_map(before).remove(name@) =~= client_map(before));
                }
            },
        }
        let ghost mid = self.clients@;
        proof {
            lemma_client_map_dom(mid);
        }
        self.clients.push((owned(name), Arc::new(client)));
        proof {
            assert(self.clients@.drop_last() =~= mid);
            assert forall|a: int, b: int| 0 <= a < b < self.clients@.len() implies self.clients@[a].0@ != self.clients@[b].0@ by {
                if b == mid.len() {
                    assert(self.clients@[a] == mid[a]);
                    assert(!client_map(mid).dom().contains(name@));
                } else {
                    assert(self.clients@[a] == mid[a]);
                    assert(self.clients@[b] == mid[b]);
                }
            }
            assert(client_map(self.clients@).dom() =~= client_map(before).dom().insert(name@));
        }
    }

    /// The client held under a name, if any.
    pub fn get_client(&self, name: &str) -> (r: Option<Arc<HttpTcpClient>>)
        requires
            self.wf(),
        ensures
            r is Some <==> self@.contains_key(name@),
            r matches Some(c) ==> c == self@[name@],
    {
        proof {
            lemma_client_map_dom(self.clients@);
        }
        match self.position(name) {
            Some(i) => {
                proof {
                    lemma_client_map_remove(self.clients@, i as int);
                    lemma_client_map_entry(self.clients@, i as int);
                }
                Some(share(&self.clients[i].1))
            },
            None => None,
        }
    }

    /// Removes the client held under a name and hands it back, if any.
    pub fn remove_client(&mut self, name: &str) -> (r: Option<Arc<HttpTcpClient>>)
        requires
            old(self).wf(),
        ensures
            final(self).wf(),
            final(self)@ == old(self)@.remove(name@),
            r is Some <==> old(self)@.contains_key(name@),
            r matches Some(c) ==> c == old(self)@[name@],
            final(self)@.dom().len() == old(self)@.dom().len() - if old(self)@.contains_key(name@) {
                1int
            } else {
                0int
            },
    {
        proof {
            lemma_client_map_dom(self.clients@);
            old(self).lemma_names_are_keys();
        }
        match self.position(name) {
            Some(i) => {
                proof {
                    lemma_client_map_remove(self.clients@, i as int);
                    lemma_client_map_entry(self.clients@, i as int);
                }
                let (_, c) = self.clients.remove(i);
                Some(c)
            },
            None => {
                proof {
                    assert(client_map(self.clients@).remove(name@) =~= client_map(self.clients@));
                }
                None
            },
        }
    }

    /// Removes every client.
    pub fn clear(&mut self)
        ensures
            final(self).wf(),
            final(self)@ == Map::<Seq<char>, Arc<HttpTcpClient>>::empty(),
    {
        self.clients = Vec::new();
        assert(client_map(self.clients@) =~= Map::<Seq<char>, Arc<HttpTcpClient>>::empty());
    }

    /// The number of clients held.
    pub fn len(&self) -> (r: usize)
        requires
            self.wf(),
        ensures
            r == self@.dom().len(),
    {
        proof {
            lemma_client_map_len(self.clients@);
        }
        self.clients.len()
    }

    /// Whether the pool holds no client.
    pub fn is_empty(&self) -> (r: bool)
        requires
            self.wf(),
        ensures
            r == (self@.dom().len() == 0),
    {
        proof {
            lemma_client_map_len(self.clients@);
        }
        self.clients.len() == 0
    }

    /// The names of the clients held.
    pub fn client_names(&self) -> (r: Vec<String>)
        requires
            self.wf(),
        ensures
            r@.map_values(|s: String| s@) == self.names(),
            forall|k: Seq<char>| self@.contains_key(k) <==> #[trigger] self.names().contains(k),
            self.names().no_duplicates(),
            r@.len() == self@.dom().len(),
    {
        proof {
            lemma_client_map_dom(self.clients@);
        }
        let mut r: Vec<String> = Vec::new();
        let mut i: usize = 0;
        while i < self.clients.len()
            invariant
                0 <= i <= self.clients.len(),
                r@.map_values(|s: String| s@) == entry_names(self.clients@).take(i as int),
            decreases self.clients.len() - i,
        {
            let ghost before = r@;
            r.push(self.clients[i].0.clone());
            proof {
                assert(r@ == before.push(self.clients@[i as int].0));
                assert(r@.map_values(|s: String| s@) =~= before.map_values(|s: String| s@).push(self.clients@[i as int].0@));
                assert(entry_names(self.clients@).take(i + 1) =~= entry_names(self.clients@).take(i as int).push(self.clients@[i as int].0@));
            }
            i = i + 1;
        }
        proof {
            assert(entry_names(self.clients@).take(self.clients@.len() as int) =~= entry_names(self.clients@));
            self.lemma_names_are_keys();
            assert(r@.len() == r@.map_values(|s: String| s@).len());
            assert forall|k: Seq<char>| self@.contains_key(k) <==> #[trigger] self.names().contains(k) by {
                if self@.contains_key(k) {
                    let i = choose|i: int| 0 <= i < self.clients@.len() && #[trigger] self.clients@[i].0@ == k;
                    assert(self.names()[i] == k);
                }
                if self.names().contains(k) {
                    let i = choose|i: int| 0 <= i < self.names().len() && self.names()[i] == k;
                    assert(self.clients@[i].0@ == k);
                }
            }
        }
        r
    }
}

/// In a list with distinct names, the entry at `i` is what its name maps to.
proof fn lemma_client_map_entry(s: Seq<(String, Arc<HttpTcpClient>)>, i: int)
    requires
        distinct_client_names(s),
        0 <= i < s.len(),
    ensures
        client_map(s).contains_key(s[i].0@),
        client_map(s)[s[i].0@] == s[i].1,
    decreases s.len(),
{
    let t = s.drop_last();
    if i < s.len() - 1 {
        lemma_client_map_entry(t, i);
        assert(t[i] == s[i]);
        assert(s[i].0@ != s.last().0@);
    }
}

} // verus!
