//! The state a module's handlers share, and the builder that assembles it.

use crate::error::ConfigError;
use crate::text::owned;
use std::sync::Arc;
use vstd::prelude::*;

verus! {

/// Client for the orchestrator's secret store, as the state holds it.
#[derive(Debug)]
pub struct SecretClient {
    connected: bool,
}

impl SecretClient {
    /// Whether the client talks to an orchestrator.
    pub closed spec fn is_connected(&self) -> bool {
        self.connected
    }

    /// A client that talks to no orchestrator, for tests and tools.
    pub fn new_dummy() -> (r: Self)
        ensures
            !r.is_connected(),
    {
        SecretClient { connected: false }
    }

    /// A client that talks to the orchestrator over IPC.
    pub fn new_connected() -> (r: Self)
        ensures
            r.is_connected(),
    {
        SecretClient { connected: true }
    }
}

/// Shared state of a module: its identity, the orchestrator's address, the
/// secret client and the module's own state.
#[derive(Debug)]
pub struct AppState<T> {
    module_id: String,
    orchestrator_api: String,
    secret_client: Arc<SecretClient>,
    /// The module's own state.
    pub user_state: T,
}

impl<T> AppState<T> {
    /// The module's identifier.
    pub closed spec fn id(&self) -> Seq<char> {
        self.module_id@
    }

    /// The orchestrator's API address.
    pub closed spec fn api(&self) -> Seq<char> {
        self.orchestrator_api@
    }

    /// The secret client.
    pub closed spec fn client(&self) -> Arc<SecretClient> {
        self.secret_client
    }

    /// The module's own state.
    pub closed spec fn state(&self) -> T {
        self.user_state
    }

    /// A state from its parts.
    pub fn new(module_id: String, orchestrator_api: String, secret_client: Arc<SecretClient>, user_state: T) -> (r: Self)
        ensures
            r.id() == module_id@,
            r.api() == orchestrator_api@,
            r.client() == secret_client,
            r.state() == user_state,
    {
        AppState { module_id, orchestrator_api, secret_client, user_state }
    }

    /// A builder with nothing set.
    pub fn builder() -> (r: AppStateBuilder<T>)
        ensures
            r.module_id_set() is None,
            r.orchestrator_api_set() is None,
            r.secret_client_set() is None,
            r.user_state_set() is None,
    {
        AppStateBuilder::new()
    }

    /// The module's identifier.
    pub fn module_id(&self) -> (r: &str)
        ensures
            r@ == self.id(),
    {
        self.module_id.as_str()
    }

    /// The orchestrator's API address.
    pub fn orchestrator_api(&self) -> (r: &str)
        ensures
            r@ == self.api(),
    {
        self.orchestrator_api.as_str()
    }

    /// The secret client.
    pub fn secret_client(&self) -> (r: &Arc<SecretClient>)
        ensures
            *r == self.client(),
    {
        &self.secret_client
    }
}

/// Builder for an `AppState`.
pub struct AppStateBuilder<T> {
    module_id: Option<String>,
    orchestrator_api: Option<String>,
    secret_client: Option<Arc<SecretClient>>,
    user_state: Option<T>,
}

/// The error `build` gives for a builder: the first missing part in the
/// order module id, orchestrator API, secret client, user state.
pub open spec fn first_missing(
    module_id: bool,
    orchestrator_api: bool,
    secret_client: bool,
    user_state: bool,
) -> Option<Seq<char>> {
    if !module_id {
        Some("module_id"@)
    } else if !orchestrator_api {
        Some("orchestrator_api"@)
    } else if !secret_client {
        Some("secret_client"@)
    } else if !user_state {
        Some("user_state"@)
    } else {
        None
    }
}

impl<T> AppStateBuilder<T> {
    /// The module identifier set, if any.
    pub closed spec fn module_id_set(&self) -> Option<Seq<char>> {
        match self.module_id {
            Some(s) => Some(s@),
            None => None,
        }
    }

    /// The orchestrator address set, if any.
    pub closed spec fn orchestrator_api_set(&self) -> Option<Seq<char>> {
        match self.orchestrator_api {
            Some(s) => Some(s@),
            None => None,
        }
    }

    /// The secret client set, if any.
    pub closed spec fn secret_client_set(&self) -> Option<Arc<SecretClient>> {
        self.secret_client
    }

    /// The user state set, if any.
    pub closed spec fn user_state_set(&self) -> Option<T> {
        self.user_state
    }

    /// The error `build` gives, if any.
    pub open spec fn missing(&self) -> Option<Seq<char>> {
        first_missing(
            self.module_id_set() is Some,
            self.orchestrator_api_set() is Some,
            self.secret_client_set() is Some,
            self.user_state_set() is Some,
        )
    }

    /// A builder with nothing set.
    pub fn new() -> (r: Self)
        ensures
            r.module_id_set() is None,
            r.orchestrator_api_set() is None,
            r.secret_client_set() is None,
            r.user_state_set() is None,
    {
        AppStateBuilder { module_id: None, orchestrator_api: None, secret_client: None, user_state: None }
    }

    /// Sets the module identifier.
    pub fn with_module_id(self, module_id: String) -> (r: Self)
        ensures
            r.module_id_set() == Some(module_id@),
            r.orchestrator_api_set() == self.orchestrator_api_set(),
            r.secret_client_set() == self.secret_client_set(),
            r.user_state_set() == self.user_state_set(),
    {
        let mut r = self;
        r.module_id = Some(module_id);
        r
    }

    /// Sets the orchestrator's API address.
    pub fn with_orchestrator_api(self, orchestrator_api: String) -> (r: Self)
        ensures
            r.orchestrator_api_set() == Some(orchestrator_api@),
            r.module_id_set() == self.module_id_set(),
            r.secret_client_set() == self.secret_client_set(),
            r.user_state_set() == self.user_state_set(),
    {
        let mut r = self;
        r.orchestrator_api = Some(orchestrator_api);
        r
    }

    /// Sets the secret client.
    pub fn with_secret_client(self, secret_client: Arc<SecretClient>) -> (r: Self)
        ensures
            r.secret_client_set() == Some(secret_client),
            r.module_id_set() == self.module_id_set(),
            r.orchestrator_api_set() == self.orchestrator_api_set(),
            r.user_state_set() == self.user_state_set(),
    {
        let mut r = self;
        r.secret_client = Some(secret_client);
        r
    }

    /// Sets the module's own state.
    pub fn with_custom(self, user_state: T) -> (r: Self)
        ensures
            r.user_state_set() == Some(user_state),
            r.module_id_set() == self.module_id_set(),
            r.orchestrator_api_set() == self.orchestrator_api_set(),
            r.secret_client_set() == self.secret_client_set(),
    {
        let mut r = self;
        r.user_state = Some(user_state);
        r
    }

    /// The state, when every part is set; otherwise a missing-setting error
    /// naming the first part missing.
    pub fn build(self) -> (r: Result<AppState<T>, ConfigError>)
        ensures
            match self.missing() {
                Some(name) => r matches Err(ConfigError::MissingEnvVar(n)) && n@ == name,
                None => r matches Ok(s) && Some(s.id()) == self.module_id_set() && Some(s.api())
                    == self.orchestrator_api_set() && Some(s.client()) == self.secret_client_set()
                    && Some(s.state()) == self.user_state_set(),
            },
    {
        let module_id = match self.module_id {
            Some(v) => v,
            None => return Err(ConfigError::MissingEnvVar(owned("module_id"))),
        };
        let orchestrator_api = match self.orchestrator_api {
            Some(v) => v,
            None => return Err(ConfigError::MissingEnvVar(owned("orchestrator_api"))),
        };
        let secret_client = match self.secret_client {
            Some(v) => v,
            None => return Err(ConfigError::MissingEnvVar(owned("secret_client"))),
        };
        let user_state = match self.user_state {
            Some(v) => v,
            None => return Err(ConfigError::MissingEnvVar(owned("user_state"))),
        };
        Ok(AppState::new(module_id, orchestrator_api, secret_client, user_state))
    }

    /// The same as `build`.
    pub fn try_build(self) -> (r: Result<AppState<T>, ConfigError>)
        ensures
            match self.missing() {
                Some(name) => r matches Err(ConfigError::MissingEnvVar(n)) && n@ == name,
                None => r matches Ok(s) && Some(s.id()) == self.module_id_set() && Some(s.api())
                    == self.orchestrator_api_set() && Some(s.client()) == self.secret_client_set()
                    && Some(s.state()) == self.user_state_set(),
            },
    {
        self.build()
    }
}

impl<T> Default for AppStateBuilder<T> {
    fn default() -> (r: Self)
        ensures
            r.module_id_set() is None,
            r.orchestrator_api_set() is None,
            r.secret_client_set() is None,
            r.user_state_set() is None,
    {
        Self::new()
    }
}

} // verus!
