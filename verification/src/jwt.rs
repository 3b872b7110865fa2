//! JWT authentication through the orchestrator's JWT service: reading the
//! bearer token of a request, and the decisions taken on the service's
//! answers.

use crate::ipc_types::ServiceResponse;
use crate::proxy::{connection_id_from_response, granted_connection, service_request_id};
use crate::sys::hyphenated_uuid_text;
use crate::text::{chars_of, chars_starts_with, concat2, owned, string_from_chars};
use vstd::prelude::*;

verus! {

/// Errors that can occur during JWT authentication. The error of the JWT
/// library is carried as its message.
#[derive(Debug)]
pub enum JwtAuthError {
    /// The token is invalid or expired.
    InvalidToken(String),
    /// The authorization header is missing.
    MissingHeader,
    /// The token is not well-formed.
    MalformedToken,
    /// Verification failed.
    VerificationFailed(String),
    /// The payload could not be processed.
    PayloadError(String),
    /// Error from the JWT library.
    JwtError(String),
}

/// The message of a JWT authentication error.
pub open spec fn jwt_error_text(e: JwtAuthError) -> Seq<char> {
    match e {
        JwtAuthError::InvalidToken(m) => "Invalid token: "@ + m@,
        JwtAuthError::MissingHeader => "Missing Authorization header"@,
        JwtAuthError::MalformedToken => "Malformed token"@,
        JwtAuthError::VerificationFailed(m) => "Token verification failed: "@ + m@,
        JwtAuthError::PayloadError(m) => "Payload error: "@ + m@,
        JwtAuthError::JwtError(m) => "JWT error: "@ + m@,
    }
}

impl JwtAuthError {
    /// The message of this error.
    pub fn message(&self) -> (r: String)
        ensures
            r@ == jwt_error_text(*self),
    {
        match self {
            JwtAuthError::InvalidToken(m) => concat2("Invalid token: ", m.as_str()),
            JwtAuthError::MissingHeader => owned("Missing Authorization header"),
            JwtAuthError::MalformedToken => owned("Malformed token"),
            JwtAuthError::VerificationFailed(m) => concat2("Token verification failed: ", m.as_str()),
            JwtAuthError::PayloadError(m) => concat2("Payload error: ", m.as_str()),
            JwtAuthError::JwtError(m) => concat2("JWT error: ", m.as_str()),
        }
    }
}

/// The token of an `Authorization` header value: what follows `Bearer `.
pub open spec fn bearer_of(value: Seq<char>) -> Option<Seq<char>> {
    let p = "Bearer "@;
    if p.len() <= value.len() && value.subrange(0, p.len() as int) == p {
        Some(value.subrange(p.len() as int, value.len() as int))
    } else {
        None
    }
}

/// The bearer token of a request's `Authorization` header, if any.
pub fn bearer_token(authorization: Option<&str>) -> (r: Option<String>)
    ensures
        match authorization {
            None => r is None,
            Some(v) => match bearer_of(v@) {
                Some(t) => r matches Some(s) && s@ == t,
                None => r is None,
            },
        },
{
    match authorization {
        None => None,
        Some(v) => {
            let cs = chars_of(v);
            let p = chars_of("Bearer ");
            if chars_starts_with(cs.as_slice(), p.as_slice()) {
                let rest = vstd::slice::slice_subrange(cs.as_slice(), p.len(), cs.len());
                Some(string_from_chars(rest))
            } else {
                None
            }
        },
    }
}

/// JWT configuration for using a remote JWT validation service.
#[derive(Debug, Clone)]
pub struct JwtProxyConfig {
    /// Custom configuration parameters for the JWT service.
    pub config: Vec<(String, String)>,
}

impl Default for JwtProxyConfig {
    fn default() -> (r: Self)
        ensures
            r.config@.len() == 0,
    {
        JwtProxyConfig { config: Vec::new() }
    }
}

/// JWT proxy service for validating tokens via IPC.
pub struct JwtProxyService {
    connection_id: String,
}

/// A value returned by a service operation, as far as the library reads it:
/// a JSON string, or any other JSON value in its rendered form.
#[derive(Debug, Clone)]
pub enum ResultValue {
    Text(String),
    Other(String),
}

impl JwtProxyService {
    /// The identifier of the connection.
    pub closed spec fn id(&self) -> Seq<char> {
        self.connection_id@
    }

    /// A fresh identifier for a connection request, `jwt_request_` then a UUID.
    pub fn request_id() -> (r: String)
        ensures
            r@.len() == "jwt_request_"@.len() + 36,
            r@.subrange(0, "jwt_request_"@.len() as int) == "jwt_request_"@,
            hyphenated_uuid_text(r@.subrange("jwt_request_"@.len() as int, r@.len() as int)),
    {
        service_request_id("jwt_request_")
    }

    /// The service the orchestrator's answer to a connection request grants:
    /// its connection identifier, or a payload error with the reason.
    pub fn from_response(resp: ServiceResponse) -> (r: Result<Self, JwtAuthError>)
        ensures
            match granted_connection(resp) {
                Ok(id) => r matches Ok(s) && s.id() == id,
                Err(m) => r matches Err(JwtAuthError::PayloadError(e)) && e@ == m,
            },
    {
        match connection_id_from_response(resp) {
            Ok(id) => Ok(JwtProxyService { connection_id: id }),
            Err(e) => Err(JwtAuthError::PayloadError(e)),
        }
    }

    /// The identifier of the connection.
    pub fn connection_id(&self) -> (r: &str)
        ensures
            r@ == self.id(),
    {
        self.connection_id.as_str()
    }
}

/// The outcome of a service operation: failure becomes an invalid-token
/// error with the service's message, `Unknown error` when it gave none.
pub fn checked_operation(success: bool, error: Option<String>) -> (r: Result<(), JwtAuthError>)
    ensures
        success ==> r is Ok,
        !success ==> match error {
            Some(e) => r matches Err(JwtAuthError::InvalidToken(m)) && m@ == e@,
            None => r matches Err(JwtAuthError::InvalidToken(m)) && m@ == "Unknown error"@,
        },
{
    if success {
        Ok(())
    } else {
        Err(
            JwtAuthError::InvalidToken(
                match error {
                    Some(e) => e,
                    None => owned("Unknown error"),
                },
            ),
        )
    }
}

/// The token a generation returned: the text of a JSON string; a payload
/// error for another value or for none.
pub fn generated_token(result: Option<ResultValue>) -> (r: Result<String, JwtAuthError>)
    ensures
        match result {
            Some(ResultValue::Text(t)) => r matches Ok(s) && s@ == t@,
            Some(ResultValue::Other(_)) => r matches Err(JwtAuthError::PayloadError(m)) && m@ == "Invalid token format"@,
            None => r matches Err(JwtAuthError::PayloadError(m)) && m@ == "No token returned from generation"@,
        },
{
    match result {
        Some(ResultValue::Text(t)) => Ok(t),
        Some(ResultValue::Other(_)) => Err(JwtAuthError::PayloadError(owned("Invalid token format"))),
        None => Err(JwtAuthError::PayloadError(owned("No token returned from generation"))),
    }
}

/// The claims a validation returned, still to be decoded: the value, or an
/// invalid-token error when there is none.
pub fn returned_claims(result: Option<ResultValue>) -> (r: Result<ResultValue, JwtAuthError>)
    ensures
        match result {
            Some(v) => r matches Ok(w) && w == v,
            None => r matches Err(JwtAuthError::InvalidToken(m)) && m@ == "No claims returned from validation"@,
        },
{
    match result {
        Some(v) => Ok(v),
        None => Err(JwtAuthError::InvalidToken(owned("No claims returned from validation"))),
    }
}

/// The outcome of closing the connection: a payload error with the
/// service's message, `Close failed` when it gave none.
pub fn close_outcome(success: bool, error: Option<String>) -> (r: Result<(), JwtAuthError>)
    ensures
        success ==> r is Ok,
        !success ==> match error {
            Some(e) => r matches Err(JwtAuthError::PayloadError(m)) && m@ == e@,
            None => r matches Err(JwtAuthError::PayloadError(m)) && m@ == "Close failed"@,
        },
{
    if success {
        Ok(())
    } else {
        Err(
            JwtAuthError::PayloadError(
                match error {
                    Some(e) => e,
                    None => owned("Close failed"),
                },
            ),
        )
    }
}

} // verus!
