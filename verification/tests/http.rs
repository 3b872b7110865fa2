use pywatt_sdk::http_tcp::client::{
    response_json_body, response_text, ConnectionConfig, HttpClientError, HttpClientPool, HttpTcpClient, TcpChannel,
};
use pywatt_sdk::http_tcp::router::{error_to_response, route_endpoints, HttpTcpError};
use pywatt_sdk::http_tcp::{
    bad_request, created, error_response, internal_error, json_response, not_found, success, unrenderable_response,
    HttpTcpRequest, HttpTcpResponse,
};
use pywatt_sdk::routing::{Dispatch, RouteTable};
use std::sync::Arc;
use std::time::Duration;

fn header_value(headers: &[(String, String)], name: &str) -> Option<String> {
    headers.iter().rev().find(|(k, _)| k == name).map(|(_, v)| v.clone())
}

#[test]
fn query_params_are_read_from_the_uri() {
    let req = HttpTcpRequest::new("GET", "/api/users?id=5&name=bob&flag&x=1=2");
    let params = req.query_params();
    assert_eq!(header_value(&params, "id"), Some("5".to_string()));
    assert_eq!(header_value(&params, "name"), Some("bob".to_string()));
    assert_eq!(header_value(&params, "flag"), None);
    assert_eq!(header_value(&params, "x"), Some("1".to_string()));
    assert_eq!(params.len(), 3);
    assert_eq!(req.query_param("id"), Some("5".to_string()));
    assert_eq!(req.query_param("missing"), None);
    assert_eq!(req.path(), "/api/users");
}

#[test]
fn later_query_pairs_win_and_second_question_mark_ends_the_query() {
    let req = HttpTcpRequest::new("GET", "/a?k=1&k=2?z=9");
    assert_eq!(req.query_param("k"), Some("2".to_string()));
    assert_eq!(req.query_param("z"), None);
    assert_eq!(req.query_params().len(), 1);
    let plain = HttpTcpRequest::new("GET", "/plain/path");
    assert_eq!(plain.path(), "/plain/path");
    assert!(plain.query_params().is_empty());
}

#[test]
fn headers_set_and_read_back() {
    let req = HttpTcpRequest::new("POST", "/x")
        .with_header("Content-Type", "text/plain")
        .with_header("Content-Type", "application/json")
        .with_headers(vec![("X-A".to_string(), "1".to_string())])
        .with_body(b"{}".to_vec())
        .with_request_id("req-1");
    assert_eq!(req.header("Content-Type"), Some(&"application/json".to_string()));
    assert_eq!(req.header("X-A"), Some(&"1".to_string()));
    assert_eq!(req.header("X-B"), None);
    assert_eq!(req.headers.len(), 2);
    assert_eq!(req.request_id, "req-1");
    assert_eq!(req.body, Some(b"{}".to_vec()));
    assert_eq!(req.method, "POST");
}

#[test]
fn fresh_requests_get_distinct_identifiers() {
    let a = HttpTcpRequest::new("GET", "/");
    let b = HttpTcpRequest::new("GET", "/");
    assert_ne!(a.request_id, b.request_id);
    assert_eq!(a.request_id.len(), 36);
}

#[test]
fn response_status_classes() {
    let ok = HttpTcpResponse::new("r", 204);
    assert!(ok.is_success() && !ok.is_client_error() && !ok.is_server_error());
    let missing = HttpTcpResponse::new("r", 404);
    assert!(!missing.is_success() && missing.is_client_error() && !missing.is_server_error());
    let broken = HttpTcpResponse::new("r", 503);
    assert!(!broken.is_success() && !broken.is_client_error() && broken.is_server_error());
    let redirect = HttpTcpResponse::new("r", 302);
    assert!(!redirect.is_success() && !redirect.is_client_error() && !redirect.is_server_error());
    let odd = HttpTcpResponse::new("r", 600);
    assert!(!odd.is_success() && !odd.is_client_error() && !odd.is_server_error());
}

#[test]
fn response_body_as_string() {
    let r = HttpTcpResponse::new("r", 200).with_body(b"abc".to_vec());
    assert_eq!(r.body_as_string().unwrap().unwrap(), "abc");
    let bad = HttpTcpResponse::new("r", 200).with_body(vec![0xff, 0xfe]);
    assert!(bad.body_as_string().unwrap().is_err());
    assert!(HttpTcpResponse::new("r", 200).body_as_string().is_none());
    let h = HttpTcpResponse::new("r", 200).with_header("A", "1").with_headers(vec![("A".to_string(), "2".to_string())]);
    assert_eq!(h.header("A"), Some(&"2".to_string()));
}

#[test]
fn json_error_responses() {
    let r = not_found("r1", "/x");
    assert_eq!(r.status_code, 404);
    assert_eq!(r.request_id, "r1");
    assert_eq!(r.body.unwrap(), br#"{"status":"error","message":"Not found: /x"}"#.to_vec());
    assert_eq!(header_value(&r.headers, "Content-Type"), Some("application/json".to_string()));
    let b = bad_request("r2", "say \"hi\"");
    assert_eq!(b.status_code, 400);
    assert_eq!(b.body.unwrap(), br#"{"status":"error","message":"say \"hi\""}"#.to_vec());
    let i = internal_error("r3", "boom");
    assert_eq!(i.status_code, 500);
    assert_eq!(i.body.unwrap(), br#"{"status":"error","message":"boom"}"#.to_vec());
    let low = error_response("r4", 302, "moved");
    assert_eq!(low.body.unwrap(), br#"{"status":"error","message":"moved"}"#.to_vec());
}

#[test]
fn json_success_responses() {
    let s = success("r", "[1,2]".to_string());
    assert_eq!(s.status_code, 200);
    assert_eq!(s.body.unwrap(), br#"{"status":"success","data":[1,2]}"#.to_vec());
    let c = created("r", "{\"id\":7}".to_string());
    assert_eq!(c.status_code, 201);
    assert_eq!(c.body.unwrap(), br#"{"status":"success","data":{"id":7}}"#.to_vec());
    let both = json_response("r", 422, Some("null".to_string()), Some("invalid".to_string()));
    assert_eq!(both.body.unwrap(), br#"{"status":"error","data":null,"message":"invalid"}"#.to_vec());
    let none = unrenderable_response("r", 200);
    assert!(none.body.is_none());
    assert_eq!(header_value(&none.headers, "Content-Type"), Some("application/json".to_string()));
}

#[test]
fn handler_errors_become_responses() {
    let r = error_to_response(HttpTcpError::InvalidRequest("bad".to_string()), "id1");
    assert_eq!(r.status_code, 400);
    assert_eq!(r.request_id, "id1");
    assert_eq!(r.body.unwrap(), br#"{"status":"error","message":"Invalid request: bad"}"#.to_vec());
    assert_eq!(error_to_response(HttpTcpError::NotFound("x".to_string()), "i").status_code, 404);
    assert_eq!(error_to_response(HttpTcpError::Unauthorized("x".to_string()), "i").status_code, 401);
    assert_eq!(error_to_response(HttpTcpError::Forbidden("x".to_string()), "i").status_code, 403);
    assert_eq!(error_to_response(HttpTcpError::Other("x".to_string()), "i").status_code, 500);
    let t = error_to_response(HttpTcpError::Timeout(Duration::from_secs(5)), "i");
    assert_eq!(t.status_code, 408);
    assert_eq!(t.body.unwrap(), br#"{"status":"error","message":"Timeout after 5s"}"#.to_vec());
    assert_eq!(HttpTcpError::Io("disk".to_string()).message(), "I/O error: disk");
}

fn client() -> HttpTcpClient {
    let config = ConnectionConfig::new("localhost", 9901);
    let channel = Arc::new(TcpChannel { config: config.clone() });
    HttpTcpClient::with_channel(channel, config)
}

#[test]
fn urls_are_resolved_against_the_base() {
    let c = client().with_base_url("http://svc/api");
    assert_eq!(c.resolve_url("users"), "http://svc/api/users");
    assert_eq!(c.resolve_url("/users"), "http://svc/api/users");
    assert_eq!(c.resolve_url("https://other/x"), "https://other/x");
    let c2 = client().with_base_url("http://svc/api/");
    assert_eq!(c2.resolve_url("/users"), "http://svc/api/users");
    assert_eq!(c2.resolve_url("users"), "http://svc/api/users");
    assert_eq!(client().resolve_url("users"), "users");
    assert_eq!(client().config().port, 9901);
}

#[test]
fn request_builders_carry_the_client_defaults() {
    let c = client().with_default_timeout(Duration::from_secs(7)).with_default_retries(3);
    let rb = c.post("/items");
    assert_eq!(rb.timeout_duration(), Duration::from_secs(7));
    let req = rb.header("A", "1").body(b"x".to_vec()).build_request();
    assert_eq!(req.method, "POST");
    assert_eq!(req.uri, "/items");
    assert_eq!(req.body, Some(b"x".to_vec()));
    assert_eq!(header_value(&req.headers, "A"), Some("1".to_string()));
    assert_eq!(client().get("/a").timeout_duration(), Duration::from_secs(30));
    for (rb, m) in [
        (client().get("/a"), "GET"),
        (client().put("/a"), "PUT"),
        (client().delete("/a"), "DELETE"),
        (client().patch("/a"), "PATCH"),
        (client().head("/a"), "HEAD"),
        (client().options("/a"), "OPTIONS"),
    ] {
        assert_eq!(rb.build_request().method, m);
    }
}

#[test]
fn query_parameters_are_appended_to_the_uri() {
    let c = client();
    assert_eq!(c.get("/items").query("a", "1").query("b", "2").build_uri(), "/items?a=1&b=2");
    assert_eq!(c.get("/items?x=1").query("a", "1").build_uri(), "/items?x=1&a=1");
    assert_eq!(c.get("/items?").query("a", "1").build_uri(), "/items?a=1");
    assert_eq!(c.get("/items").query("a", "1").query("a", "3").build_uri(), "/items?a=3");
    assert_eq!(c.get("/items").build_uri(), "/items");
    let q = c.get("/s").queries(vec![("p".to_string(), "1".to_string()), ("q".to_string(), "2".to_string())]);
    let req = q.build_request();
    let parsed = req.query_params();
    assert_eq!(header_value(&parsed, "p"), Some("1".to_string()));
    assert_eq!(header_value(&parsed, "q"), Some("2".to_string()));
    let j = c.post("/j").json_text("{\"a\":1}".to_string()).build_request();
    assert_eq!(j.body, Some(b"{\"a\":1}".to_vec()));
    assert_eq!(header_value(&j.headers, "Content-Type"), Some("application/json".to_string()));
}

#[test]
fn responses_are_read_as_text() {
    let ok = HttpTcpResponse::new("r", 200).with_body(b"hi".to_vec());
    assert_eq!(response_text(ok).unwrap(), "hi");
    assert_eq!(response_text(HttpTcpResponse::new("r", 204)).unwrap(), "");
    match response_text(HttpTcpResponse::new("r", 404).with_body(b"nope".to_vec())) {
        Err(HttpClientError::ResponseError { status, message }) => {
            assert_eq!(status, 404);
            assert_eq!(message, "nope");
        }
        other => panic!("unexpected {:?}", other),
    }
    match response_text(HttpTcpResponse::new("r", 500)) {
        Err(HttpClientError::ResponseError { message, .. }) => assert_eq!(message, "No response body"),
        other => panic!("unexpected {:?}", other),
    }
    match response_text(HttpTcpResponse::new("r", 500).with_body(vec![0xff])) {
        Err(HttpClientError::ResponseError { message, .. }) => assert_eq!(message, "Failed to decode response body"),
        other => panic!("unexpected {:?}", other),
    }
    match response_text(HttpTcpResponse::new("r", 200).with_body(vec![0xff])) {
        Err(HttpClientError::Other(m)) => assert_eq!(m, "Failed to decode response body as UTF-8"),
        other => panic!("unexpected {:?}", other),
    }
    match response_json_body(HttpTcpResponse::new("r", 200)) {
        Err(HttpClientError::Other(m)) => assert_eq!(m, "No response body"),
        other => panic!("unexpected {:?}", other),
    }
    assert_eq!(response_json_body(HttpTcpResponse::new("r", 200).with_body(b"[]".to_vec())).unwrap(), b"[]".to_vec());
}

#[test]
fn client_pool_holds_named_clients() {
    let mut pool = HttpClientPool::new();
    assert!(pool.is_empty());
    pool.add_client("a", client().with_base_url("http://a"));
    pool.add_client("b", client());
    pool.add_client("a", client().with_base_url("http://a2"));
    assert_eq!(pool.len(), 2);
    let names = pool.client_names();
    assert!(names.contains(&"a".to_string()) && names.contains(&"b".to_string()));
    assert_eq!(pool.get_client("a").unwrap().resolve_url("x"), "http://a2/x");
    assert!(pool.get_client("c").is_none());
    let removed = pool.remove_client("b");
    assert!(removed.is_some());
    assert!(pool.remove_client("b").is_none());
    assert_eq!(pool.len(), 1);
    pool.clear();
    assert!(pool.is_empty());
}

#[test]
fn routes_dispatch_on_method_and_path() {
    let mut table = RouteTable::new();
    table.add("get", "/users");
    table.add("POST", "/users");
    table.add("GET", "/health");
    assert_eq!(table.dispatch("GET", "/users?x=1", false), Dispatch::Route(0));
    assert_eq!(table.dispatch("post", "/users", false), Dispatch::Route(1));
    assert_eq!(table.dispatch("DELETE", "/users", true), Dispatch::NotFoundHandler);
    assert_eq!(table.dispatch("DELETE", "/users", false), Dispatch::NotFound);
    assert_eq!(table.find("GET", "/health"), Some(2));
    let endpoints = route_endpoints(&table);
    assert_eq!(endpoints.len(), 2);
    assert_eq!(endpoints[0].0, "/users");
    assert_eq!(endpoints[0].1, vec!["GET".to_string(), "POST".to_string()]);
    assert_eq!(endpoints[1].0, "/health");
    assert_eq!(endpoints[1].1, vec!["GET".to_string()]);
}

#[test]
fn first_matching_route_wins() {
    let mut table = RouteTable::new();
    table.add("GET", "/a");
    table.add("get", "/a");
    assert_eq!(table.len(), 2);
    assert_eq!(table.dispatch("Get", "/a", false), Dispatch::Route(0));
}
