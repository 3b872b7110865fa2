use pywatt_sdk::bootstrap::BootstrapError;
use pywatt_sdk::cache::CacheError;
use pywatt_sdk::database::DatabaseError;
use pywatt_sdk::http_tcp::client::HttpClientError;
use pywatt_sdk::jwt::JwtAuthError;
use std::time::Duration;

#[test]
fn test_cache_error_messages() {
    assert_eq!(CacheError::Write("disk full".to_string()).message(), "set error: disk full");
    assert_eq!(CacheError::Ipc("down".to_string()).message(), "IPC error: down");
    assert_eq!(CacheError::Internal("x".to_string()).message(), "internal error: x");
}

#[test]
fn test_database_error_messages() {
    assert_eq!(DatabaseError::Query("bad sql".to_string()).message(), "query error: bad sql");
    assert_eq!(DatabaseError::Configuration("c".to_string()).message(), "configuration error: c");
}

#[test]
fn test_jwt_error_messages() {
    assert_eq!(JwtAuthError::MissingHeader.message(), "Missing Authorization header");
    assert_eq!(JwtAuthError::MalformedToken.message(), "Malformed token");
    assert_eq!(JwtAuthError::InvalidToken("expired".to_string()).message(), "Invalid token: expired");
}

#[test]
fn test_bootstrap_error_messages() {
    assert_eq!(BootstrapError::Init("eof".to_string()).message(), "handshake failed: eof");
    assert_eq!(BootstrapError::Other("o".to_string()).message(), "other error: o");
}

#[test]
fn test_client_error_messages() {
    assert_eq!(
        HttpClientError::ResponseError { status: 404, message: "missing".to_string() }.message(),
        "Response error (404): missing"
    );
    assert_eq!(HttpClientError::Timeout(Duration::from_secs(30)).message(), "Request timed out after 30s");
    assert_eq!(HttpClientError::Other("o".to_string()).message(), "Error: o");
}
