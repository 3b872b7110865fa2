//! Module-to-module messaging through the orchestrator: its errors and how the
//! answer to a routed request is read.

use crate::text::{concat2, concat3, owned, string_from_utf8, utf8_error_text};
use vstd::prelude::*;
use vstd::utf8::{decode_utf8, valid_utf8};

verus! {

/// Errors of internal module-to-module messaging. Errors that came from
/// elsewhere carry their rendered message.
#[derive(Debug)]
pub enum InternalMessagingError {
    SerializationError(String),
    NetworkError(String),
    Timeout,
    TargetModuleNotFound(String),
    TargetEndpointNotFound(String, String),
    ApplicationError(String),
    DeserializationError(String),
    InternalSDKError(String),
    OrchestratorError(String),
}

/// A result whose error is an [`InternalMessagingError`].
pub type InternalMessagingResult<T> = Result<T, InternalMessagingError>;

/// The message of an error.
pub open spec fn messaging_error_text(e: InternalMessagingError) -> Seq<char> {
    match e {
        InternalMessagingError::SerializationError(m) => "Failed to serialize request payload: "@ + m@,
        InternalMessagingError::NetworkError(m) => "Network error while sending message to orchestrator: "@
            + m@,
        InternalMessagingError::Timeout => "Request timed out while waiting for response from target module"@,
        InternalMessagingError::TargetModuleNotFound(m) => "Orchestrator indicated target module '"@ + m@
            + "' was not found"@,
        InternalMessagingError::TargetEndpointNotFound(ep, m) => "Orchestrator indicated target endpoint '"@
            + ep@ + "' on module '"@ + m@ + "' was not found"@,
        InternalMessagingError::ApplicationError(m) => "Target module responded with an application error: "@
            + m@,
        InternalMessagingError::DeserializationError(m) => "Failed to deserialize response payload: "@ + m@,
        InternalMessagingError::InternalSDKError(m) => "Internal SDK error: "@ + m@,
        InternalMessagingError::OrchestratorError(m) => "Orchestrator error: "@ + m@,
    }
}

impl InternalMessagingError {
    /// The message of this error.
    pub fn message(&self) -> (r: String)
        ensures
            r@ == messaging_error_text(*self),
    {
        match self {
            InternalMessagingError::SerializationError(m) => concat2(
                "Failed to serialize request payload: ",
                m.as_str(),
            ),
            InternalMessagingError::NetworkError(m) => concat2(
                "Network error while sending message to orchestrator: ",
                m.as_str(),
            ),
            InternalMessagingError::Timeout => owned(
                "Request timed out while waiting for response from target module",
            ),
            InternalMessagingError::TargetModuleNotFound(m) => concat3(
                "Orchestrator indicated target module '",
                m.as_str(),
                "' was not found",
            ),
            InternalMessagingError::TargetEndpointNotFound(ep, m) => {
                let a = concat3("Orchestrator indicated target endpoint '", ep.as_str(), "' on module '");
                concat3(a.as_str(), m.as_str(), "' was not found")
            },
            InternalMessagingError::ApplicationError(m) => concat2(
                "Target module responded with an application error: ",
                m.as_str(),
            ),
            InternalMessagingError::DeserializationError(m) => concat2(
                "Failed to deserialize response payload: ",
                m.as_str(),
            ),
            InternalMessagingError::InternalSDKError(m) => concat2("Internal SDK error: ", m.as_str()),
            InternalMessagingError::OrchestratorError(m) => concat2("Orchestrator error: ", m.as_str()),
        }
    }
}

/// How a pending routed request was answered.
#[derive(Debug)]
pub enum RoutedReply {
    /// The target module's JSON payload.
    Payload(Vec<u8>),
    /// The orchestrator answered with an error, rendered.
    Failed(String),
    /// The channel of the answer closed before an answer came.
    Closed,
}

/// The detail of the error reported when the answer channel closed.
pub open spec fn closed_channel_text() -> Seq<char> {
    "Response channel closed prematurely; SDK might be shutting down"@
}

/// The JSON text of the answer to a routed request, ready to be parsed, or
/// the error it is reported as: a payload that is not UTF-8 is a
/// deserialization error; an orchestrator error keeps its message; a closed
/// channel is an internal error.
pub fn routed_reply_text(reply: RoutedReply) -> (r: InternalMessagingResult<String>)
    ensures
        match reply {
            RoutedReply::Payload(b) => if valid_utf8(b@) {
                r matches Ok(s) && s@ == decode_utf8(b@)
            } else {
                r matches Err(InternalMessagingError::DeserializationError(_))
            },
            RoutedReply::Failed(m) => r matches Err(InternalMessagingError::OrchestratorError(e)) && e@ == m@,
            RoutedReply::Closed => r matches Err(InternalMessagingError::InternalSDKError(e)) && e@
                == closed_channel_text(),
        },
{
    match reply {
        RoutedReply::Payload(b) => match string_from_utf8(b) {
            Ok(s) => Ok(s),
            Err(e) => Err(InternalMessagingError::DeserializationError(utf8_error_text(&e))),
        },
        RoutedReply::Failed(m) => Err(InternalMessagingError::OrchestratorError(m)),
        RoutedReply::Closed => Err(
            InternalMessagingError::InternalSDKError(
                owned("Response channel closed prematurely; SDK might be shutting down"),
            ),
        ),
    }
}

} // verus!
