//! The IPC channel with the orchestrator over stdin/stdout: the requests
//! waiting for an answer, the decision taken on each line read, and the
//! decisions of the HTTP-over-IPC server loop.

use crate::text::{chars_eq, chars_of};
use vstd::prelude::*;

verus! {

/// An IPC manager; its work is done by the application's IPC loop.
#[derive(Debug)]
pub struct IpcManager {}

impl IpcManager {
    /// A new manager.
    pub fn new() -> (r: Self) {
        IpcManager {}
    }
}

/// The identifiers of requests sent to the orchestrator that wait for an
/// answer; none occurs twice.
pub struct PendingRequests {
    ids: Vec<String>,
}

impl View for PendingRequests {
    type V = Set<Seq<char>>;

    closed spec fn view(&self) -> Set<Seq<char>> {
        Set::new(|k: Seq<char>| exists|i: int| 0 <= i < self.ids@.len() && #[trigger] self.ids@[i]@ == k)
    }
}

impl PendingRequests {
    /// No identifier occurs twice.
    pub closed spec fn wf(&self) -> bool {
        forall|i: int, j: int| 0 <= i < j < self.ids@.len() ==> self.ids@[i]@ != self.ids@[j]@
    }

    /// None waiting.
    pub fn new() -> (r: Self)
        ensures
            r.wf(),
            r@ == Set::<Seq<char>>::empty(),
    {
        let r = PendingRequests { ids: Vec::new() };
        assert(r@ =~= Set::<Seq<char>>::empty());
        r
    }

    fn position(&self, id: &str) -> (r: Option<usize>)
        ensures
            match r {
                Some(i) => i < self.ids@.len() && self.ids@[i as int]@ == id@,
                None => forall|j: int| 0 <= j < self.ids@.len() ==> #[trigger] self.ids@[j]@ != id@,
            },
    {
        let v = chars_of(id);
        let mut i: usize = 0;
        while i < self.ids.len()
            invariant
                0 <= i <= self.ids.len(),
                v@ == id@,
                forall|j: int| 0 <= j < i ==> #[trigger] self.ids@[j]@ != id@,
            decreases self.ids.len() - i,
        {
            let k = chars_of(self.ids[i].as_str());
            if chars_eq(k.as_slice(), v.as_slice()) {
                return Some(i);
            }
            i = i + 1;
        }
        None
    }

    /// Whether a request waits under this identifier.
    pub fn contains(&self, id: &str) -> (r: bool)
        ensures
            r == self@.contains(id@),
    {
        match self.position(id) {
            Some(i) => {
                assert(self.ids@[i as int]@ == id@);
                true
            },
            None => false,
        }
    }

    /// Records a request waiting under this identifier.
    pub fn register(&mut self, id: String)
        requires
            old(self).wf(),
        ensures
            final(self).wf(),
            final(self)@ == old(self)@.insert(id@),
    {
        match self.position(id.as_str()) {
            Some(i) => {
                proof {
                    assert(self@ =~= old(self)@.insert(id@)) by {
                        assert(self.ids@[i as int]@ == id@);
                    }
                }
            },
            None => {
                let ghost before = self.ids@;
                self.ids.push(id);
                proof {
                    assert(self.ids@[before.len() as int]@ == id@);
                    assert forall|k: Seq<char>| #[trigger] self@.contains(k) == old(self)@.insert(id@).contains(k) by {
                        if k == id@ {
                            assert(self.ids@[before.len() as int]@ == k);
                        }
                        if exists|i: int| 0 <= i < before.len() && #[trigger] before[i]@ == k {
                            let i = choose|i: int| 0 <= i < before.len() && #[trigger] before[i]@ == k;
                            assert(self.ids@[i]@ == k);
                        }
                        if exists|i: int| 0 <= i < self.ids@.len() && #[trigger] self.ids@[i]@ == k {
                            let i = choose|i: int| 0 <= i < self.ids@.len() && #[trigger] self.ids@[i]@ == k;
                            if i < before.len() {
                                assert(before[i]@ == k);
                            }
                        }
                    }
                    assert(self@ =~= old(self)@.insert(id@));
                }
            },
        }
    }

    /// Takes the request waiting under this identifier: whether one waited.
    pub fn take(&mut self, id: &str) -> (r: bool)
        requires
            old(self).wf(),
        ensures
            final(self).wf(),
            r == old(self)@.contains(id@),
            final(self)@ == old(self)@.remove(id@),
    {
        match self.position(id) {
            Some(i) => {
                let ghost before = self.ids@;
                let _ = self.ids.remove(i);
                proof {
                    assert(before[i as int]@ == id@);
                    assert forall|k: Seq<char>| #[trigger] self@.contains(k) == old(self)@.remove(id@).contains(k) by {
                        if exists|j: int| 0 <= j < self.ids@.len() && #[trigger] self.ids@[j]@ == k {
                            let j = choose|j: int| 0 <= j < self.ids@.len() && #[trigger] self.ids@[j]@ == k;
                            if j < i {
                                assert(before[j]@ == k);
                            } else {
                                assert(before[j + 1]@ == k);
                            }
                        }
                        if old(self)@.remove(id@).contains(k) {
                            let j = choose|j: int| 0 <= j < before.len() && #[trigger] before[j]@ == k;
                            assert(j != i);
                            if j < i {
                                assert(self.ids@[j]@ == k);
                            } else {
                                assert(self.ids@[j - 1]@ == k);
                            }
                        }
                    }
                    assert(self@ =~= old(self)@.remove(id@));
                }
                true
            },
            None => {
                proof {
                    assert(!old(self)@.contains(id@));
                    assert(self@ =~= old(self)@.remove(id@));
                }
                false
            },
        }
    }
}

/// What a line read from the orchestrator turned out to be.
#[derive(Debug, Clone)]
pub enum IpcMessage {
    /// A secret value.
    Secret,
    /// A rotation notification.
    Rotated,
    /// The orchestrator asks the module to stop.
    Shutdown,
    /// An initialisation message.
    Init,
    /// An answer to a service request.
    ServiceResponse,
    /// The result of a service operation.
    ServiceOperationResult,
    /// An HTTP request.
    HttpRequest,
    /// A message from another module.
    RoutedModuleMessage,
    /// Another module's answer to a request of this module.
    RoutedModuleResponse { request_id: String },
    /// A heartbeat.
    Heartbeat,
}

/// What the IPC loop read.
#[derive(Debug, Clone)]
pub enum IpcEvent {
    /// A line: the identifier it answers, when it is a service answer, and
    /// the message, when it parses.
    Line { response_id: Option<String>, message: Option<IpcMessage> },
    /// The orchestrator closed stdin.
    EndOfInput,
    /// Reading stdin failed.
    ReadFailed,
}

/// What the IPC loop does with what it read.
#[derive(Debug, Clone)]
pub enum IpcAction {
    /// Hand the line to the request waiting under this identifier.
    ForwardToWaiting(String),
    /// Let the secret client process the line.
    DelegateToSecretClient,
    /// Broadcast the HTTP request to the HTTP server.
    BroadcastHttpRequest,
    /// Hand the routed response's payload to the request waiting for it.
    DeliverModuleResponse(String),
    /// Nothing to do with the line.
    Ignore,
    /// End the loop.
    Stop,
}

/// The IPC loop's step: an answer to a waiting request goes to it (and it no
/// longer waits); other lines are handled by what message they carry.
pub fn ipc_step(pending: &mut PendingRequests, event: IpcEvent) -> (r: IpcAction)
    requires
        old(pending).wf(),
    ensures
        final(pending).wf(),
        match event {
            IpcEvent::EndOfInput => r is Stop && final(pending)@ == old(pending)@,
            IpcEvent::ReadFailed => r is Stop && final(pending)@ == old(pending)@,
            IpcEvent::Line { response_id, message } => {
                let claimed = response_id matches Some(id) && old(pending)@.contains(id@);
                if claimed {
                    r matches IpcAction::ForwardToWaiting(f) && Some(f) == response_id
                        && final(pending)@ == old(pending)@.remove(f@)
                } else {
                    match message {
                        None => r is Ignore && final(pending)@ == old(pending)@,
                        Some(IpcMessage::Secret) => r is DelegateToSecretClient && final(pending)@ == old(pending)@,
                        Some(IpcMessage::Rotated) => r is DelegateToSecretClient && final(pending)@ == old(pending)@,
                        Some(IpcMessage::Shutdown) => r is Stop && final(pending)@ == old(pending)@,
                        Some(IpcMessage::HttpRequest) => r is BroadcastHttpRequest && final(pending)@ == old(pending)@,
                        Some(IpcMessage::RoutedModuleResponse { request_id }) => if old(pending)@.contains(request_id@) {
                            r matches IpcAction::DeliverModuleResponse(d) && d == request_id
                                && final(pending)@ == old(pending)@.remove(request_id@)
                        } else {
                            r is Ignore && final(pending)@ == old(pending)@
                        },
                        Some(_) => r is Ignore && final(pending)@ == old(pending)@,
                    }
                }
            },
        },
{
    match event {
        IpcEvent::EndOfInput => IpcAction::Stop,
        IpcEvent::ReadFailed => IpcAction::Stop,
        IpcEvent::Line { response_id, message } => {
            if let Some(id) = response_id {
                if pending.take(id.as_str()) {
                    return IpcAction::ForwardToWaiting(id);
                }
            }
            match message {
                None => IpcAction::Ignore,
                Some(IpcMessage::Secret) => IpcAction::DelegateToSecretClient,
                Some(IpcMessage::Rotated) => IpcAction::DelegateToSecretClient,
                Some(IpcMessage::Shutdown) => IpcAction::Stop,
                Some(IpcMessage::HttpRequest) => IpcAction::BroadcastHttpRequest,
                Some(IpcMessage::RoutedModuleResponse { request_id }) => {
                    if pending.take(request_id.as_str()) {
                        IpcAction::DeliverModuleResponse(request_id)
                    } else {
                        IpcAction::Ignore
                    }
                },
                Some(_) => IpcAction::Ignore,
            }
        },
    }
}

/// What the HTTP-over-IPC server loop observed.
#[derive(Debug, Clone, Copy, PartialEq, Eq, Structural)]
pub enum ServerEvent {
    /// The user's shutdown signal fired.
    ShutdownSignal,
    /// A request arrived.
    Request,
    /// The request channel is closed.
    ChannelClosed,
    /// The receiver fell behind and missed this many requests.
    Lagged(u64),
}

/// What the server loop does next.
#[derive(Debug, Clone, Copy, PartialEq, Eq, Structural)]
pub enum ServerAction {
    /// Handle the request in a task of its own and send its response.
    HandleRequest,
    /// Go on waiting.
    Continue,
    /// Stop the server.
    Stop,
}

/// The server loop's step: stop on the shutdown signal or a closed channel,
/// handle a request, and go on after falling behind.
pub fn server_step(event: ServerEvent) -> (r: ServerAction)
    ensures
        r == match event {
            ServerEvent::ShutdownSignal => ServerAction::Stop,
            ServerEvent::Request => ServerAction::HandleRequest,
            ServerEvent::ChannelClosed => ServerAction::Stop,
            ServerEvent::Lagged(_) => ServerAction::Continue,
        },
{
    match event {
        ServerEvent::ShutdownSignal => ServerAction::Stop,
        ServerEvent::Request => ServerAction::HandleRequest,
        ServerEvent::ChannelClosed => ServerAction::Stop,
        ServerEvent::Lagged(_) => ServerAction::Continue,
    }
}

} // verus!
