//! The HTTP-over-TCP router's own logic: how handler errors become
//! responses, and the endpoints a route table advertises.

use crate::headers::header_map;
use crate::http_tcp::client::TcpChannel;
use crate::http_tcp::{api_json, error_response, json_content_headers, HttpTcpResponse};
use crate::routing::RouteTable;
use crate::sys::{duration_debug, duration_debug_text};
use crate::text::{chars_eq, chars_of, concat2};
use std::sync::Arc;
use std::time::Duration;
use vstd::prelude::*;
use vstd::utf8::*;

verus! {

/// Errors of HTTP-over-TCP handlers. Errors that came from elsewhere carry
/// their rendered message.
#[derive(Debug)]
pub enum HttpTcpError {
    /// Invalid request format.
    InvalidRequest(String),
    /// Resource not found.
    NotFound(String),
    /// Authorization error.
    Unauthorized(String),
    /// Permission error.
    Forbidden(String),
    /// Internal server error.
    Internal(String),
    /// Error from the SDK.
    Sdk(String),
    /// JSON serialization error.
    Json(String),
    /// I/O error.
    Io(String),
    /// Timeout.
    Timeout(Duration),
    /// Other errors.
    Other(String),
}

/// The status code an error is answered with.
pub open spec fn tcp_error_status(e: HttpTcpError) -> u16 {
    match e {
        HttpTcpError::InvalidRequest(_) => 400,
        HttpTcpError::NotFound(_) => 404,
        HttpTcpError::Unauthorized(_) => 401,
        HttpTcpError::Forbidden(_) => 403,
        HttpTcpError::Timeout(_) => 408,
        _ => 500,
    }
}

/// The message of an error.
pub open spec fn tcp_error_text(e: HttpTcpError) -> Seq<char> {
    match e {
        HttpTcpError::InvalidRequest(m) => "Invalid request: "@ + m@,
        HttpTcpError::NotFound(m) => "Not found: "@ + m@,
        HttpTcpError::Unauthorized(m) => "Unauthorized: "@ + m@,
        HttpTcpError::Forbidden(m) => "Forbidden: "@ + m@,
        HttpTcpError::Internal(m) => "Internal error: "@ + m@,
        HttpTcpError::Sdk(m) => "SDK error: "@ + m@,
        HttpTcpError::Json(m) => "JSON error: "@ + m@,
        HttpTcpError::Io(m) => "I/O error: "@ + m@,
        HttpTcpError::Timeout(d) => "Timeout after "@ + duration_debug_text(d),
        HttpTcpError::Other(m) => "Other error: "@ + m@,
    }
}

impl HttpTcpError {
    /// The status code this error is answered with.
    pub fn status_code(&self) -> (r: u16)
        ensures
            r == tcp_error_status(*self),
    {
        match self {
            HttpTcpError::InvalidRequest(_) => 400,
            HttpTcpError::NotFound(_) => 404,
            HttpTcpError::Unauthorized(_) => 401,
            HttpTcpError::Forbidden(_) => 403,
            HttpTcpError::Timeout(_) => 408,
            _ => 500,
        }
    }

    /// The message of this error.
    pub fn message(&self) -> (r: String)
        ensures
            r@ == tcp_error_text(*self),
    {
        match self {
            HttpTcpError::InvalidRequest(m) => concat2("Invalid request: ", m.as_str()),
            HttpTcpError::NotFound(m) => concat2("Not found: ", m.as_str()),
            HttpTcpError::Unauthorized(m) => concat2("Unauthorized: ", m.as_str()),
            HttpTcpError::Forbidden(m) => concat2("Forbidden: ", m.as_str()),
            HttpTcpError::Internal(m) => concat2("Internal error: ", m.as_str()),
            HttpTcpError::Sdk(m) => concat2("SDK error: ", m.as_str()),
            HttpTcpError::Json(m) => concat2("JSON error: ", m.as_str()),
            HttpTcpError::Io(m) => concat2("I/O error: ", m.as_str()),
            HttpTcpError::Timeout(d) => {
                let t = duration_debug(d);
                concat2("Timeout after ", t.as_str())
            },
            HttpTcpError::Other(m) => concat2("Other error: ", m.as_str()),
        }
    }
}

/// The response to a handler error: its status code, and a JSON error body
/// with its message.
pub fn error_to_response(error: HttpTcpError, request_id: &str) -> (r: HttpTcpResponse)
    ensures
        r.request_id@ == request_id@,
        r.status_code == tcp_error_status(error),
        header_map(r.headers@) == json_content_headers(),
        r.body matches Some(b) && b@ == encode_utf8(api_json("error"@, None, Some(tcp_error_text(error)))),
{
    let code = error.status_code();
    let m = error.message();
    error_response(request_id, code, m.as_str())
}

/// The module as registered with the orchestrator.
#[derive(Debug, Clone)]
pub struct RegisteredModule {
    /// Name of the module.
    pub name: String,
    /// Host of the orchestrator's TCP endpoint.
    pub orchestrator_host: String,
    /// Port of the orchestrator's TCP endpoint.
    pub orchestrator_port: u16,
}

/// Receiver for HTTP requests.
#[derive(Debug, Clone)]
pub struct HttpReceiver {
    /// The TCP channel requests arrive on.
    pub channel: Arc<TcpChannel>,
    /// The registered module.
    pub module: RegisteredModule,
}

/// The endpoints of a route table: one per path, in the order paths first
/// appear, with the methods of its routes in order.
pub open spec fn group_by_path(keys: Seq<(Seq<char>, Seq<char>)>) -> Seq<(Seq<char>, Seq<Seq<char>>)>
    decreases keys.len(),
{
    if keys.len() == 0 {
        Seq::empty()
    } else {
        let g = group_by_path(keys.drop_last());
        let m = keys.last().0;
        let p = keys.last().1;
        match path_index(g, p) {
            Some(i) => g.update(i, (p, g[i].1.push(m))),
            None => g.push((p, seq![m])),
        }
    }
}

/// The index of the group for a path, if any.
pub open spec fn path_index(g: Seq<(Seq<char>, Seq<Seq<char>>)>, p: Seq<char>) -> Option<int>
    decreases g.len(),
{
    if g.len() == 0 {
        None
    } else {
        match path_index(g.drop_last(), p) {
            Some(i) => Some(i),
            None => if g.last().0 == p {
                Some(g.len() - 1)
            } else {
                None
            },
        }
    }
}

proof fn lemma_path_index(g: Seq<(Seq<char>, Seq<Seq<char>>)>, p: Seq<char>)
    ensures
        match path_index(g, p) {
            Some(i) => 0 <= i < g.len() && g[i].0 == p && forall|x: int| 0 <= x < i ==> g[x].0 != p,
            None => forall|j: int| 0 <= j < g.len() ==> g[j].0 != p,
        },
    decreases g.len(),
{
    if g.len() > 0 {
        let t = g.drop_last();
        lemma_path_index(t, p);
        assert forall|j: int| 0 <= j < t.len() implies t[j] == g[j] by {}
    }
}

/// The view of a list of endpoints.
pub open spec fn endpoints_view(v: Seq<(String, Vec<String>)>) -> Seq<(Seq<char>, Seq<Seq<char>>)> {
    v.map_values(|e: (String, Vec<String>)| (e.0@, e.1@.map_values(|s: String| s@)))
}

/// The endpoints a route table advertises (see `group_by_path`).
pub fn route_endpoints(table: &RouteTable) -> (r: Vec<(String, Vec<String>)>)
    ensures
        endpoints_view(r@) == group_by_path(table.keys()),
{
    let mut out: Vec<(String, Vec<String>)> = Vec::new();
    let n = table.len();
    let mut i: usize = 0;
    while i < n
        invariant
            0 <= i <= n,
            n == table.keys().len(),
            endpoints_view(out@) == group_by_path(table.keys().take(i as int)),
        decreases n - i,
    {
        let (m, p) = table.route_at(i);
        let ghost keys = table.keys().take(i + 1);
        let ghost g = group_by_path(table.keys().take(i as int));
        proof {
            assert(keys.drop_last() =~= table.keys().take(i as int));
            assert(keys.last() == table.keys()[i as int]);
            lemma_path_index(g, p@);
        }
        let pc = chars_of(p.as_str());
        let mut j: usize = 0;
        let mut found: Option<usize> = None;
        while j < out.len()
            invariant
                0 <= j <= out.len(),
                pc@ == p@,
                endpoints_view(out@) == g,
                found is None ==> forall|k: int| 0 <= k < j ==> g[k].0 != p@,
                found matches Some(k) ==> k < out.len() && g[k as int].0 == p@ && path_index(g, p@) == Some(k as int),
                g.len() == out@.len(),
                path_index(g, p@) matches Some(k) ==> forall|x: int| 0 <= x < k ==> g[x].0 != p@,
            decreases out.len() - j,
        {
            if found.is_none() {
                let oc = chars_of(out[j].0.as_str());
                assert(g[j as int].0 == out@[j as int].0@);
                if chars_eq(oc.as_slice(), pc.as_slice()) {
                    proof {
                        lemma_path_index_first(g, p@, j as int);
                    }
                    found = Some(j);
                }
            }
            j = j + 1;
        }
        match found {
            Some(k) => {
                let ghost before = out@;
                let mut entry = out.remove(k);
                let ghost old_entry = entry;
                entry.1.push(m.clone());
                let ghost new_entry = entry;
                out.insert(k, entry);
                proof {
                    assert(old_entry == before[k as int]);
                    assert(out@ =~= before.update(k as int, new_entry));
                    assert(new_entry.1@ == old_entry.1@.push(*m));
                    assert(new_entry.1@.map_values(|s: String| s@) =~= old_entry.1@.map_values(|s: String| s@).push(m@));
                    assert(endpoints_view(out@) =~= g.update(k as int, (p@, g[k as int].1.push(m@))));
                }
            },
            None => {
                proof {
                    if path_index(g, p@) is Some {
                        let k = path_index(g, p@)->Some_0;
                        assert(g[k].0 == p@);
                    }
                }
                let mut ms: Vec<String> = Vec::new();
                ms.push(m.clone());
                out.push((p.clone(), ms));
                proof {
                    assert(ms@.map_values(|s: String| s@) =~= seq![m@]);
                    assert(endpoints_view(out@) =~= g.push((p@, seq![m@])));
                }
            },
        }
        i = i + 1;
    }
    assert(table.keys().take(n as int) =~= table.keys());
    out
}

/// The first group with a path is the one `path_index` finds.
proof fn lemma_path_index_first(g: Seq<(Seq<char>, Seq<Seq<char>>)>, p: Seq<char>, j: int)
    requires
        0 <= j < g.len(),
        g[j].0 == p,
        forall|k: int| 0 <= k < j ==> g[k].0 != p,
    ensures
        path_index(g, p) == Some(j),
    decreases g.len(),
{
    let t = g.drop_last();
    if j < g.len() - 1 {
        lemma_path_index_first(t, p, j);
    } else {
        lemma_path_index(t, p);
        if path_index(t, p) is Some {
            let k = path_index(t, p)->Some_0;
            assert(t[k] == g[k]);
        }
    }
}

} // verus!
