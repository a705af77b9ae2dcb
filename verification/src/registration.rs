//! Registration of the client with the authorization server.
use vstd::prelude::*;
use vstd::string::*;

use crate::auth::{failed_request, is_success, request_failure};
use crate::auth::{AuthClient, AuthError, ClientRegistration};
use crate::config::{ConfigError, FilePath};
use crate::oidc::{Field, OidcConfig};
use crate::outside::is_status;
use crate::text::{opt_view, result_view};

verus! {

/// What the client asks to be registered as. The grant types are given in order.
#[derive(Debug)]
pub struct RegistrationRequest<S = String> {
    pub client_name: S,
    pub application_type: S,
    pub redirect_uri: S,
    pub token_endpoint_auth_method: S,
    pub grant_types: (S, S),
    pub response_type: S,
    pub scope: S,
}

impl View for RegistrationRequest {
    type V = RegistrationRequest<Seq<char>>;

    open spec fn view(&self) -> RegistrationRequest<Seq<char>> {
        RegistrationRequest {
            client_name: self.client_name@,
            application_type: self.application_type@,
            redirect_uri: self.redirect_uri@,
            token_endpoint_auth_method: self.token_endpoint_auth_method@,
            grant_types: (self.grant_types.0@, self.grant_types.1@),
            response_type: self.response_type@,
            scope: self.scope@,
        }
    }
}

impl RegistrationRequest<Seq<char>> {
    /// The request of a public native client that is sent back to `redirect_uri`.
    pub open spec fn native(redirect_uri: Seq<char>) -> Self {
        RegistrationRequest {
            client_name: "mcp-proxy"@,
            application_type: "native"@,
            redirect_uri,
            token_endpoint_auth_method: "none"@,
            grant_types: ("authorization_code"@, "refresh_token"@),
            response_type: "code"@,
            scope: "openid"@,
        }
    }
}

impl RegistrationRequest {
    /// The request of a public native client that is sent back to `redirect_uri`.
    pub fn for_redirect(redirect_uri: String) -> (r: Self)
        ensures
            r@ == RegistrationRequest::<Seq<char>>::native(redirect_uri@),
    {
        RegistrationRequest {
            client_name: "mcp-proxy".to_string(),
            application_type: "native".to_string(),
            redirect_uri,
            token_endpoint_auth_method: "none".to_string(),
            grant_types: ("authorization_code".to_string(), "refresh_token".to_string()),
            response_type: "code".to_string(),
            scope: "openid".to_string(),
        }
    }
}

/// What is to be done next to have a registration.
#[derive(Debug)]
pub enum RegisterStep<S = String> {
    /// Read the registration from its file, with the steps of a `LoadStep`.
    Load { path: FilePath<S> },
    /// Discover the OpenID configuration.
    Discover,
    /// Post the request as JSON.
    Send { endpoint: S, request: RegistrationRequest<S> },
    /// Read the text of the answer, which is no success.
    ReadError { code: u16 },
    /// Read the registration from the answer.
    ReadRegistration,
    /// Write the registration as pretty JSON text.
    Serialize { registration: ClientRegistration<S> },
    /// Have the directory of the files.
    EnsureDir { registration: ClientRegistration<S>, text: S },
    /// Make the file hold exactly the text.
    Write { path: FilePath<S>, registration: ClientRegistration<S>, text: S },
    Done(Result<ClientRegistration<S>, AuthError<S>>),
}

/// What came of a step of the registration.
#[derive(Debug)]
pub enum RegisterEvent<S = String> {
    Loaded(Result<ClientRegistration<S>, ConfigError<S>>),
    Discovered(Result<OidcConfig<S>, AuthError<S>>),
    Sent(Result<u16, S>),
    ErrorText(Option<S>),
    Registered(Result<ClientRegistration<S>, S>),
    Serialized(Result<S, S>),
    Dir(Result<(), ConfigError<S>>),
    Written(Result<(), S>),
}

impl View for RegisterStep {
    type V = RegisterStep<Seq<char>>;

    open spec fn view(&self) -> RegisterStep<Seq<char>> {
        match *self {
            RegisterStep::Load { path } => RegisterStep::Load { path: path@ },
            RegisterStep::Discover => RegisterStep::Discover,
            RegisterStep::Send { endpoint, request } => RegisterStep::Send {
                endpoint: endpoint@,
                request: request@,
            },
            RegisterStep::ReadError { code } => RegisterStep::ReadError { code },
            RegisterStep::ReadRegistration => RegisterStep::ReadRegistration,
            RegisterStep::Serialize { registration } => RegisterStep::Serialize {
                registration: registration@,
            },
            RegisterStep::EnsureDir { registration, text } => RegisterStep::EnsureDir {
                registration: registration@,
                text: text@,
            },
            RegisterStep::Write { path, registration, text } => RegisterStep::Write {
                path: path@,
                registration: registration@,
                text: text@,
            },
            RegisterStep::Done(r) => RegisterStep::Done(result_view(r)),
        }
    }
}

impl View for RegisterEvent {
    type V = RegisterEvent<Seq<char>>;

    open spec fn view(&self) -> RegisterEvent<Seq<char>> {
        match *self {
            RegisterEvent::Loaded(r) => RegisterEvent::Loaded(result_view(r)),
            RegisterEvent::Discovered(r) => RegisterEvent::Discovered(result_view(r)),
            RegisterEvent::Sent(r) => RegisterEvent::Sent(result_view(r)),
            RegisterEvent::ErrorText(t) => RegisterEvent::ErrorText(opt_view(t)),
            RegisterEvent::Registered(r) => RegisterEvent::Registered(result_view(r)),
            RegisterEvent::Serialized(r) => RegisterEvent::Serialized(result_view(r)),
            RegisterEvent::Dir(r) => RegisterEvent::Dir(result_view(r)),
            RegisterEvent::Written(r) => RegisterEvent::Written(result_view(r)),
        }
    }
}

impl RegisterEvent<Seq<char>> {
    /// Whether a status that the event tells of is one.
    pub open spec fn wf(self) -> bool {
        self matches RegisterEvent::Sent(Ok(code)) ==> is_status(code)
    }
}

impl RegisterStep<Seq<char>> {
    pub open spec fn wf(self) -> bool {
        self matches RegisterStep::ReadError { code } ==> is_status(code)
    }
}

impl AuthClient<Seq<char>> {
    /// The first step of having a registration.
    pub open spec fn registering(self) -> RegisterStep<Seq<char>> {
        match self.client_registration {
            Some(registration) => RegisterStep::Done(Ok(registration)),
            None => RegisterStep::Load {
                path: self.config_manager.registration_path(self.server_url_hash),
            },
        }
    }

    /// The client once it has a registration.
    pub open spec fn registered(self, registration: ClientRegistration<Seq<char>>) -> Self {
        AuthClient { client_registration: Some(registration), ..self }
    }

    /// The client and the step that follow an event.
    pub open spec fn register_after(
        self,
        step: RegisterStep<Seq<char>>,
        event: RegisterEvent<Seq<char>>,
    ) -> (Self, RegisterStep<Seq<char>>) {
        match (step, event) {
            (RegisterStep::Load { path }, RegisterEvent::Loaded(Ok(registration))) => (
                self.registered(registration),
                RegisterStep::Done(Ok(registration)),
            ),
            (RegisterStep::Load { path }, RegisterEvent::Loaded(Err(_))) => (
                self,
                RegisterStep::Discover,
            ),
            (RegisterStep::Discover, RegisterEvent::Discovered(Err(e))) => (
                self,
                RegisterStep::Done(Err(e)),
            ),
            (RegisterStep::Discover, RegisterEvent::Discovered(Ok(config))) => (
                self,
                match config.registration_endpoint {
                    Field::Text(endpoint) => RegisterStep::Send {
                        endpoint,
                        request: RegistrationRequest::<Seq<char>>::native(self.redirect_url()),
                    },
                    _ => RegisterStep::Done(
                        Err(
                            AuthError::Other("No registration_endpoint in OIDC configuration"@),
                        ),
                    ),
                },
            ),
            (RegisterStep::Send { endpoint, request }, RegisterEvent::Sent(Err(m))) => (
                self,
                RegisterStep::Done(Err(AuthError::Http(m))),
            ),
            (RegisterStep::Send { endpoint, request }, RegisterEvent::Sent(Ok(code))) => (
                self,
                if is_success(code) {
                    RegisterStep::ReadRegistration
                } else {
                    RegisterStep::ReadError { code }
                },
            ),
            (RegisterStep::ReadError { code }, RegisterEvent::ErrorText(text)) => (
                self,
                RegisterStep::Done(
                    Err(
                        AuthError::Other(
                            failed_request("Failed to register client"@, code, text),
                        ),
                    ),
                ),
            ),
            (RegisterStep::ReadRegistration, RegisterEvent::Registered(Err(m))) => (
                self,
                RegisterStep::Done(Err(AuthError::Http(m))),
            ),
            (RegisterStep::ReadRegistration, RegisterEvent::Registered(Ok(registration))) => (
                self,
                RegisterStep::Serialize { registration },
            ),
            (RegisterStep::Serialize { registration }, RegisterEvent::Serialized(Err(m))) => (
                self,
                RegisterStep::Done(Err(AuthError::Serialization(m))),
            ),
            (RegisterStep::Serialize { registration }, RegisterEvent::Serialized(Ok(text))) => (
                self,
                RegisterStep::EnsureDir { registration, text },
            ),
            (RegisterStep::EnsureDir { registration, text }, RegisterEvent::Dir(Err(e))) => (
                self,
                RegisterStep::Done(Err(AuthError::Config(e))),
            ),
            (RegisterStep::EnsureDir { registration, text }, RegisterEvent::Dir(Ok(_))) => (
                self,
                RegisterStep::Write {
                    path: self.config_manager.registration_path(self.server_url_hash),
                    registration,
                    text,
                },
            ),
            (RegisterStep::Write { path, registration, text }, RegisterEvent::Written(Err(m))) => (
                self,
                RegisterStep::Done(Err(AuthError::Io(m))),
            ),
            (RegisterStep::Write { path, registration, text }, RegisterEvent::Written(Ok(_))) => (
                self.registered(registration),
                RegisterStep::Done(Ok(registration)),
            ),
            _ => (self, step),
        }
    }
}

impl AuthClient {
    /// The registration of the client: the one that it has, the one in its file, or
    /// a new one.
    pub fn ensure_client_registration(&self) -> (r: RegisterStep)
        ensures
            r@ == self@.registering(),
    {
        match &self.client_registration {
            Some(registration) => RegisterStep::Done(Ok(registration.clone())),
            None => RegisterStep::Load {
                path: self.config_manager.get_registration_path(self.server_url_hash.as_str()),
            },
        }
    }

    /// The step of the registration that follows an event.
    pub fn register_next(&mut self, step: RegisterStep, event: RegisterEvent) -> (r: RegisterStep)
        requires
            step@.wf(),
            event@.wf(),
        ensures
            (final(self)@, r@) == old(self)@.register_after(step@, event@),
            r@.wf(),
    {
        match (step, event) {
            (RegisterStep::Load { path: _ }, RegisterEvent::Loaded(loaded)) => match loaded {
                Ok(registration) => {
                    self.client_registration = Some(registration.clone());
                    RegisterStep::Done(Ok(registration))
                },
                Err(_) => RegisterStep::Discover,
            },
            (RegisterStep::Discover, RegisterEvent::Discovered(discovered)) => match discovered {
                Err(e) => RegisterStep::Done(Err(e)),
                Ok(config) => match config.registration_endpoint {
                    Field::Text(endpoint) => {
                        let request = RegistrationRequest::for_redirect(self.get_redirect_url());
                        RegisterStep::Send { endpoint, request }
                    },
                    _ => RegisterStep::Done(
                        Err(AuthError::other("No registration_endpoint in OIDC configuration")),
                    ),
                },
            },
            (RegisterStep::Send { endpoint: _, request: _ }, RegisterEvent::Sent(sent)) => {
                match sent {
                    Err(m) => RegisterStep::Done(Err(AuthError::Http(m))),
                    Ok(code) => {
                        if 200 <= code && code < 300 {
                            RegisterStep::ReadRegistration
                        } else {
                            RegisterStep::ReadError { code }
                        }
                    },
                }
            },
            (RegisterStep::ReadError { code }, RegisterEvent::ErrorText(text)) => {
                let message = request_failure("Failed to register client", code, text);
                RegisterStep::Done(Err(AuthError::Other(message)))
            },
            (RegisterStep::ReadRegistration, RegisterEvent::Registered(registered)) => {
                match registered {
                    Err(m) => RegisterStep::Done(Err(AuthError::Http(m))),
                    Ok(registration) => RegisterStep::Serialize { registration },
                }
            },
            (RegisterStep::Serialize { registration }, RegisterEvent::Serialized(text)) => {
                match text {
                    Err(m) => RegisterStep::Done(Err(AuthError::Serialization(m))),
                    Ok(text) => RegisterStep::EnsureDir { registration, text },
                }
            },
            (RegisterStep::EnsureDir { registration, text }, RegisterEvent::Dir(dir)) => match dir {
                Err(e) => RegisterStep::Done(Err(AuthError::Config(e))),
                Ok(_) => {
                    let path = self.config_manager.get_registration_path(
                        self.server_url_hash.as_str(),
                    );
                    RegisterStep::Write { path, registration, text }
                },
            },
            (
                RegisterStep::Write { path: _, registration, text: _ },
                RegisterEvent::Written(written),
            ) => match written {
                Err(m) => RegisterStep::Done(Err(AuthError::Io(m))),
                Ok(_) => {
                    self.client_registration = Some(registration.clone());
                    RegisterStep::Done(Ok(registration))
                },
            },
            (step, _) => step,
        }
    }
}

} // verus!
