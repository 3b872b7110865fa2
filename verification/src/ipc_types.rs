//! Messages exchanged between a module and the orchestrator.
//!
//! Header maps are lists of name/value pairs; a later pair for a name takes
//! the place of an earlier one when they are turned back into a map.

use vstd::prelude::*;

verus! {

/// Information about a single HTTP/WebSocket endpoint provided by a module.
#[derive(Debug, Clone)]
pub struct EndpointAnnounce {
    pub path: String,
    pub methods: Vec<String>,
    pub auth: Option<String>,
}

/// Sent from module to orchestrator once the module has bound its listener.
#[derive(Debug, Clone)]
pub struct AnnounceBlob {
    /// The socket address the server actually bound to.
    pub listen: String,
    /// All endpoints exposed by the module.
    pub endpoints: Vec<EndpointAnnounce>,
}

/// Sent from module to orchestrator to fetch a secret.
#[derive(Debug, Clone)]
pub struct GetSecretRequest {
    /// Name of the secret.
    pub name: String,
}

/// A secret value, fetched on demand or pushed as part of a rotation.
#[derive(Debug, Clone)]
pub struct SecretValueResponse {
    pub name: String,
    pub value: String,
    /// Identifier of the rotation batch, if this value is part of one.
    pub rotation_id: Option<String>,
}

/// Notification that a group of secrets have been rotated.
#[derive(Debug, Clone)]
pub struct RotatedNotification {
    pub keys: Vec<String>,
    pub rotation_id: String,
}

/// Sent from module to orchestrator after processing a rotation batch.
#[derive(Debug, Clone)]
pub struct RotationAckRequest {
    pub rotation_id: String,
    /// Typically `success` or `error`.
    pub status: String,
    /// Optional human-readable context.
    pub message: Option<String>,
}

/// Type of service.
#[derive(Debug, Clone, Copy, PartialEq, Eq, Structural)]
pub enum ServiceType {
    /// Database service
    Database,
    /// Cache service
    Cache,
    /// JWT authentication service
    Jwt,
}

/// Response to a service request.
#[derive(Debug, Clone)]
pub struct ServiceResponse {
    /// ID from the request
    pub id: String,
    /// Type of service
    pub service_type: ServiceType,
    /// Whether the request was successful
    pub success: bool,
    /// Error message if unsuccessful
    pub error: Option<String>,
    /// Unique ID for the connection
    pub connection_id: Option<String>,
}

/// HTTP request from orchestrator to module.
#[derive(Debug, Clone)]
pub struct IpcHttpRequest {
    pub request_id: String,
    pub method: String,
    pub uri: String,
    pub headers: Vec<(String, String)>,
    pub body: Option<Vec<u8>>,
}

/// HTTP response from module to orchestrator.
#[derive(Debug, Clone)]
pub struct IpcHttpResponse {
    pub request_id: String,
    pub status_code: u16,
    pub headers: Vec<(String, String)>,
    pub body: Option<Vec<u8>>,
}

} // verus!
