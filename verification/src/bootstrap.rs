//! Bootstrapping a module: where the orchestrator's TCP channel is, the
//! configuration of a module builder, and the decisions of the task that
//! processes the orchestrator's messages over TCP.

use crate::http_tcp::opt_text;
use crate::ipc_types::EndpointAnnounce;
use crate::text::{chars_eq, chars_of, concat2, owned};
use vstd::prelude::*;

verus! {

/// Errors that may occur during bootstrap. Errors that came from elsewhere
/// carry their rendered message.
#[derive(Debug)]
pub enum BootstrapError {
    /// The handshake failed.
    Init(String),
    /// The secret client failed.
    Secret(String),
    /// The announcement failed.
    Announce(String),
    /// Any other failure.
    Other(String),
}

/// The message of a bootstrap error.
pub open spec fn bootstrap_error_text(e: BootstrapError) -> Seq<char> {
    match e {
        BootstrapError::Init(m) => "handshake failed: "@ + m@,
        BootstrapError::Secret(m) => "secret client error: "@ + m@,
        BootstrapError::Announce(m) => "announcement error: "@ + m@,
        BootstrapError::Other(m) => "other error: "@ + m@,
    }
}

impl BootstrapError {
    /// The message of this error.
    pub fn message(&self) -> (r: String)
        ensures
            r@ == bootstrap_error_text(*self),
    {
        match self {
            BootstrapError::Init(m) => concat2("handshake failed: ", m.as_str()),
            BootstrapError::Secret(m) => concat2("secret client error: ", m.as_str()),
            BootstrapError::Announce(m) => concat2("announcement error: ", m.as_str()),
            BootstrapError::Other(m) => concat2("other error: ", m.as_str()),
        }
    }
}

// ---------------------------------------------------------------------------
// The orchestrator's TCP endpoint
// ---------------------------------------------------------------------------

/// Name for what `url::Url::parse` gives for a text, read as its host and
/// its explicit port: `None` when the text does not parse.
pub uninterp spec fn url_host_port(s: Seq<char>) -> Option<(Option<Seq<char>>, Option<u16>)>;

/// `url::Url::parse`, read through `Url::host_str` and `Url::port`: the host
/// when the URL has one, and the port when it is written and is not the
/// scheme's default. A function of the text alone.
#[verifier::external_body]
fn parse_host_port(s: &str) -> (r: Option<(Option<String>, Option<u16>)>)
    ensures
        match (r, url_host_port(s@)) {
            (None, None) => true,
            (Some((h, p)), Some((hs, ps))) => opt_text(h) == hs && p == ps,
            _ => false,
        },
{
    match url::Url::parse(s) {
        Ok(u) => Some((u.host_str().map(|h| h.to_string()), u.port())),
        Err(_) => None,
    }
}

/// The host of the TCP channel: the URL's host, `localhost` without one.
pub open spec fn tcp_host(host: Option<Seq<char>>) -> Seq<char> {
    match host {
        Some(h) => h,
        None => "localhost"@,
    }
}

/// The port of the TCP channel: one above the HTTP port (80 when the URL
/// names none).
pub open spec fn tcp_port(port: Option<u16>) -> int {
    match port {
        Some(p) => p + 1,
        None => 81,
    }
}

/// The TCP endpoint for an HTTP host and port.
pub fn tcp_endpoint(host: Option<String>, port: Option<u16>) -> (r: (String, u16))
    requires
        port != Some(65535u16),
    ensures
        r.0@ == tcp_host(opt_text(host)),
        r.1 == tcp_port(port),
{
    let h = match host {
        Some(h) => h,
        None => owned("localhost"),
    };
    let p: u16 = match port {
        Some(p) => p + 1,
        None => 81,
    };
    (h, p)
}

/// The orchestrator's TCP endpoint for its API address: none when the
/// address does not parse as a URL, or when its port is the last one, which
/// has no port above it.
pub fn orchestrator_tcp_endpoint(api: &str) -> (r: Option<(String, u16)>)
    ensures
        match url_host_port(api@) {
            None => r is None,
            Some((h, p)) => if p == Some(65535u16) {
                r is None
            } else {
                r matches Some((host, port)) && host@ == tcp_host(h) && port == tcp_port(p)
            },
        },
{
    match parse_host_port(api) {
        None => None,
        Some((h, p)) => {
            if p == Some(65535u16) {
                None
            } else {
                Some(tcp_endpoint(h, p))
            }
        },
    }
}

// ---------------------------------------------------------------------------
// Module builder configuration
// ---------------------------------------------------------------------------

/// What a module builder has been told: the secrets to fetch, the endpoints
/// to announce, and whether the state builder was given.
#[derive(Debug, Clone)]
pub struct ModuleBuilderConfig {
    pub secret_keys: Vec<String>,
    pub endpoints: Vec<EndpointAnnounce>,
    pub state_set: bool,
}

impl ModuleBuilderConfig {
    /// Nothing set.
    pub fn new() -> (r: Self)
        ensures
            r.secret_keys@.len() == 0,
            r.endpoints@.len() == 0,
            !r.state_set,
    {
        ModuleBuilderConfig { secret_keys: Vec::new(), endpoints: Vec::new(), state_set: false }
    }

    /// Sets the secret keys to fetch.
    pub fn secret_keys(self, keys: &[&str]) -> (r: Self)
        ensures
            r.secret_keys@.len() == keys@.len(),
            forall|i: int| 0 <= i < keys@.len() ==> #[trigger] r.secret_keys@[i]@ == keys@[i]@,
            r.endpoints == self.endpoints,
            r.state_set == self.state_set,
    {
        let mut v: Vec<String> = Vec::new();
        let mut i: usize = 0;
        while i < keys.len()
            invariant
                0 <= i <= keys.len(),
                v@.len() == i,
                forall|j: int| 0 <= j < i ==> #[trigger] v@[j]@ == keys@[j]@,
            decreases keys.len() - i,
        {
            v.push(owned(keys[i]));
            i = i + 1;
        }
        ModuleBuilderConfig { secret_keys: v, endpoints: self.endpoints, state_set: self.state_set }
    }

    /// Sets the endpoints to announce.
    pub fn endpoints(self, endpoints: Vec<EndpointAnnounce>) -> (r: Self)
        ensures
            r.endpoints == endpoints,
            r.secret_keys == self.secret_keys,
            r.state_set == self.state_set,
    {
        ModuleBuilderConfig { secret_keys: self.secret_keys, endpoints, state_set: self.state_set }
    }

    /// Records that the state builder was given.
    pub fn state_given(self) -> (r: Self)
        ensures
            r.state_set,
            r.secret_keys == self.secret_keys,
            r.endpoints == self.endpoints,
    {
        ModuleBuilderConfig { secret_keys: self.secret_keys, endpoints: self.endpoints, state_set: true }
    }

    /// Whether the builder may bootstrap: an error `State builder not set`
    /// when the state builder was not given.
    pub fn ready(&self) -> (r: Result<(), BootstrapError>)
        ensures
            self.state_set ==> r is Ok,
            !self.state_set ==> (r matches Err(BootstrapError::Other(m)) && m@ == "State builder not set"@),
    {
        if self.state_set {
            Ok(())
        } else {
            Err(BootstrapError::Other(owned("State builder not set")))
        }
    }
}

// ---------------------------------------------------------------------------
// Processing the orchestrator's messages over TCP
// ---------------------------------------------------------------------------

/// Whether `p` occurs in `s`.
pub open spec fn has_substring(s: Seq<char>, p: Seq<char>) -> bool {
    exists|i: int| 0 <= i && i + p.len() <= s.len() && #[trigger] s.subrange(i, i + p.len()) == p
}

/// Whether text `s` contains text `p`.
pub fn contains_text(s: &str, p: &str) -> (r: bool)
    ensures
        r == has_substring(s@, p@),
{
    let sv = chars_of(s);
    let pv = chars_of(p);
    if pv.len() > sv.len() {
        return false;
    }
    if pv.len() == 0 {
        assert(s@.subrange(0int, 0int + p@.len()) =~= p@);
        return true;
    }
    let last = sv.len() - pv.len();
    let mut i: usize = 0;
    while i <= last
        invariant
            sv@ == s@,
            pv@ == p@,
            pv@.len() > 0,
            last == sv@.len() - pv@.len(),
            sv@.len() <= usize::MAX,
            0 <= i <= last + 1,
            forall|j: int| 0 <= j < i ==> #[trigger] s@.subrange(j, j + p@.len()) != p@,
        decreases last + 1 - i,
    {
        let window = vstd::slice::slice_subrange(sv.as_slice(), i, i + pv.len());
        if chars_eq(window, pv.as_slice()) {
            return true;
        }
        i = i + 1;
    }
    proof {
        assert forall|j: int| 0 <= j && j + p@.len() <= s@.len() implies #[trigger] s@.subrange(j, j + p@.len()) != p@ by {
            assert(j < i);
        }
    }
    false
}

/// What the processing task learned from the channel.
#[derive(Debug, Clone)]
pub enum OrchestratorEvent {
    /// A heartbeat.
    Heartbeat,
    /// The orchestrator asks the module to stop.
    Shutdown,
    /// Another module's answer to a request of this module.
    RoutedModuleResponse { request_id: String },
    /// A message from another module.
    RoutedModuleMessage { source_module_id: String },
    /// An HTTP request.
    HttpRequest,
    /// Any other message.
    Other,
    /// A message that could not be decoded.
    Undecodable,
    /// Receiving failed; a format error carries its message.
    ReceiveFailed { format_error: Option<String> },
    /// Whether the connection, found aborted, is closed for good.
    ClosedChecked { permanently_closed: bool },
}

/// What the processing task does next.
#[derive(Debug, Clone)]
pub enum ProcessingAction {
    /// Answer the heartbeat with an acknowledgement, then go on.
    SendHeartbeatAck,
    /// Stop the task.
    Stop,
    /// Hand the response to the request waiting for it, then go on.
    DeliverResponse(String),
    /// Drop the response (nothing waits for responses), then go on.
    DiscardResponse,
    /// Run the handler registered for this source module, then go on.
    RunHandler(String),
    /// Drop the message (no handler for its source), then go on.
    DiscardMessage,
    /// Go on receiving.
    Continue,
    /// Ask whether the aborted connection is closed for good.
    CheckPermanentlyClosed,
    /// Wait a second, then go on receiving.
    RetryAfterPause,
}

/// The texts of a list of names.
pub open spec fn name_texts(v: Seq<String>) -> Seq<Seq<char>> {
    v.map_values(|x: String| x@)
}

/// Whether a name is in a list of names.
fn list_contains(v: &Vec<String>, name: &str) -> (r: bool)
    ensures
        r == exists|i: int| 0 <= i < v@.len() && #[trigger] v@[i]@ == name@,
        r == name_texts(v@).contains(name@),
{
    let nv = chars_of(name);
    let mut i: usize = 0;
    while i < v.len()
        invariant
            0 <= i <= v.len(),
            nv@ == name@,
            forall|j: int| 0 <= j < i ==> #[trigger] v@[j]@ != name@,
        decreases v.len() - i,
    {
        let kv = chars_of(v[i].as_str());
        if chars_eq(kv.as_slice(), nv.as_slice()) {
            assert(name_texts(v@)[i as int] == name@);
            return true;
        }
        i = i + 1;
    }
    assert(!name_texts(v@).contains(name@)) by {
        if name_texts(v@).contains(name@) {
            let j = choose|j: int| 0 <= j < name_texts(v@).len() && name_texts(v@)[j] == name@;
            assert(v@[j]@ == name@);
        }
    }
    false
}

/// The next step of the processing task. `waiting_responses` tells whether
/// the module keeps a registry of requests waiting for answers;
/// `handler_sources` lists the modules with a registered message handler,
/// when the module keeps handlers at all.
pub fn processing_step(
    waiting_responses: bool,
    handler_sources: Option<&Vec<String>>,
    event: OrchestratorEvent,
) -> (r: ProcessingAction)
    ensures
        match event {
            OrchestratorEvent::Heartbeat => r is SendHeartbeatAck,
            OrchestratorEvent::Shutdown => r is Stop,
            OrchestratorEvent::RoutedModuleResponse { request_id } => if waiting_responses {
                r matches ProcessingAction::DeliverResponse(id) && id == request_id
            } else {
                r is DiscardResponse
            },
            OrchestratorEvent::RoutedModuleMessage { source_module_id } => match handler_sources {
                Some(v) => if name_texts(v@).contains(source_module_id@) {
                    r matches ProcessingAction::RunHandler(s) && s == source_module_id
                } else {
                    r is DiscardMessage
                },
                None => r is DiscardMessage,
            },
            OrchestratorEvent::HttpRequest => r is Continue,
            OrchestratorEvent::Other => r is Continue,
            OrchestratorEvent::Undecodable => r is Continue,
            OrchestratorEvent::ReceiveFailed { format_error } => match format_error {
                Some(m) => if has_substring(m@, "connection aborted"@) {
                    r is CheckPermanentlyClosed
                } else {
                    r is Stop
                },
                None => r is Stop,
            },
            OrchestratorEvent::ClosedChecked { permanently_closed } => if permanently_closed {
                r is Stop
            } else {
                r is RetryAfterPause
            },
        },
{
    match event {
        OrchestratorEvent::Heartbeat => ProcessingAction::SendHeartbeatAck,
        OrchestratorEvent::Shutdown => ProcessingAction::Stop,
        OrchestratorEvent::RoutedModuleResponse { request_id } => {
            if waiting_responses {
                ProcessingAction::DeliverResponse(request_id)
            } else {
                ProcessingAction::DiscardResponse
            }
        },
        OrchestratorEvent::RoutedModuleMessage { source_module_id } => match handler_sources {
            Some(v) => {
                if list_contains(v, source_module_id.as_str()) {
                    ProcessingAction::RunHandler(source_module_id)
                } else {
                    ProcessingAction::DiscardMessage
                }
            },
            None => ProcessingAction::DiscardMessage,
        },
        OrchestratorEvent::HttpRequest => ProcessingAction::Continue,
        OrchestratorEvent::Other => ProcessingAction::Continue,
        OrchestratorEvent::Undecodable => ProcessingAction::Continue,
        OrchestratorEvent::ReceiveFailed { format_error } => match format_error {
            Some(m) => {
                if contains_text(m.as_str(), "connection aborted") {
                    ProcessingAction::CheckPermanentlyClosed
                } else {
                    ProcessingAction::Stop
                }
            },
            None => ProcessingAction::Stop,
        },
        OrchestratorEvent::ClosedChecked { permanently_closed } => {
            if permanently_closed {
                ProcessingAction::Stop
            } else {
                ProcessingAction::RetryAfterPause
            }
        },
    }
}

// ---------------------------------------------------------------------------
// Reading the handshake line
// ---------------------------------------------------------------------------

/// The longest handshake line accepted, in bytes.
pub const MAX_HANDSHAKE_LINE: usize = 1048576;

/// What reading one more byte of the handshake line means.
#[derive(Debug, Clone, Copy, PartialEq, Eq, Structural)]
pub enum HandshakeStep {
    /// Stdin closed before the line ended.
    StdinClosed,
    /// The newline: the line is complete (the newline is not part of it).
    LineComplete,
    /// Keep the byte and read on.
    Append,
    /// Keeping the byte would make the line longer than allowed.
    TooLong,
}

/// The step for the next byte read (`None` at end of input), given how many
/// bytes the line already holds.
pub fn handshake_step(line_len: usize, byte: Option<u8>) -> (r: HandshakeStep)
    ensures
        r == match byte {
            None => HandshakeStep::StdinClosed,
            Some(b) => if b == 10 {
                HandshakeStep::LineComplete
            } else if line_len + 1 > MAX_HANDSHAKE_LINE {
                HandshakeStep::TooLong
            } else {
                HandshakeStep::Append
            },
        },
{
    match byte {
        None => HandshakeStep::StdinClosed,
        Some(b) => {
            if b == 10 {
                HandshakeStep::LineComplete
            } else if line_len >= MAX_HANDSHAKE_LINE {
                HandshakeStep::TooLong
            } else {
                HandshakeStep::Append
            }
        },
    }
}

} // verus!
