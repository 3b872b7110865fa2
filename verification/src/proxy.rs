//! Services provided by the orchestrator over IPC: the identifiers of
//! service requests and the reading of the orchestrator's answer.

use crate::ipc_types::ServiceResponse;
use crate::sys::{hyphenated_uuid_text, new_uuid_string};
use crate::text::{concat2, owned};
use vstd::prelude::*;

verus! {

/// The connection identifier granted by a service response: the error when
/// the request failed (a generic message when none was given), the
/// connection identifier when it succeeded, and an error when a successful
/// response carries no identifier.
pub open spec fn granted_connection(resp: ServiceResponse) -> Result<Seq<char>, Seq<char>> {
    if !resp.success {
        match resp.error {
            Some(e) => Err(e@),
            None => Err("Unknown connection error"@),
        }
    } else {
        match resp.connection_id {
            Some(id) => Ok(id@),
            None => Err("No connection ID returned"@),
        }
    }
}

/// Reads the orchestrator's answer to a service request.
pub fn connection_id_from_response(resp: ServiceResponse) -> (r: Result<String, String>)
    ensures
        match (r, granted_connection(resp)) {
            (Ok(id), Ok(g)) => id@ == g,
            (Err(e), Err(g)) => e@ == g,
            _ => false,
        },
{
    if !resp.success {
        return Err(
            match resp.error {
                Some(e) => e,
                None => owned("Unknown connection error"),
            },
        );
    }
    match resp.connection_id {
        Some(id) => Ok(id),
        None => Err(owned("No connection ID returned")),
    }
}

/// A fresh identifier for a service request: the given prefix followed by a
/// random UUID in its hyphenated form.
pub fn service_request_id(prefix: &str) -> (r: String)
    ensures
        r@.len() == prefix@.len() + 36,
        r@.subrange(0, prefix@.len() as int) == prefix@,
        hyphenated_uuid_text(r@.subrange(prefix@.len() as int, r@.len() as int)),
{
    let id = new_uuid_string();
    let r = concat2(prefix, id.as_str());
    assert(r@.subrange(0, prefix@.len() as int) =~= prefix@);
    assert(r@.subrange(prefix@.len() as int, r@.len() as int) =~= id@);
    r
}

} // verus!
