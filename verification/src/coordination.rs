//! Which of several processes authenticates, how it does so, and how the others
//! wait for it.
use vstd::prelude::*;
use vstd::string::*;

use crate::auth::{AuthClient, AuthError, CALLBACK_HOST, CALLBACK_PATH};
use crate::config::{AuthConfig, ConfigError, LockFile};
use crate::outside::Clock;
use crate::text::result_view;
use crate::utils::{is_lock_expired_at, lock_expired, now_seconds};
use crate::utils::{DEFAULT_COORDINATION_TIMEOUT, LOCK_EXPIRY_SECS};

verus! {

/// What can go wrong while an authentication is coordinated.
#[derive(Debug)]
pub enum CoordinationError<S = String> {
    Auth(AuthError<S>),
    Config(ConfigError<S>),
    Io(S),
    Timeout,
    Other(S),
}

impl View for CoordinationError {
    type V = CoordinationError<Seq<char>>;

    open spec fn view(&self) -> CoordinationError<Seq<char>> {
        match *self {
            CoordinationError::Auth(e) => CoordinationError::Auth(e@),
            CoordinationError::Config(e) => CoordinationError::Config(e@),
            CoordinationError::Io(m) => CoordinationError::Io(m@),
            CoordinationError::Timeout => CoordinationError::Timeout,
            CoordinationError::Other(m) => CoordinationError::Other(m@),
        }
    }
}

impl CoordinationError<Seq<char>> {
    /// The error as it is shown to a user.
    pub open spec fn text(self) -> Seq<char> {
        match self {
            CoordinationError::Auth(e) => "Auth error: "@ + e.text(),
            CoordinationError::Config(e) => "Config error: "@ + e.text(),
            CoordinationError::Io(m) => "IO error: "@ + m,
            CoordinationError::Timeout => "Coordination timeout"@,
            CoordinationError::Other(m) => "Coordination error: "@ + m,
        }
    }
}

impl CoordinationError {
    /// The error as it is shown to a user.
    pub fn message(&self) -> (r: String)
        ensures
            r@ == self@.text(),
    {
        match self {
            CoordinationError::Auth(e) => "Auth error: ".to_string().concat(e.message().as_str()),
            CoordinationError::Config(e) => "Config error: ".to_string().concat(
                e.message().as_str(),
            ),
            CoordinationError::Io(m) => "IO error: ".to_string().concat(m.as_str()),
            CoordinationError::Timeout => "Coordination timeout".to_string(),
            CoordinationError::Other(m) => "Coordination error: ".to_string().concat(m.as_str()),
        }
    }
}

/// What this process does about an authentication.
#[derive(Debug)]
pub enum AuthCoordinationResult<S = String> {
    /// It authenticates, with the user at this URL.
    HandleAuth { auth_url: S },
    /// It waits for the process that holds this lock.
    WaitForAuth { lock_file: LockFile<S> },
    /// It has tokens.
    AuthDone { auth_config: AuthConfig<S> },
}

impl View for AuthCoordinationResult {
    type V = AuthCoordinationResult<Seq<char>>;

    open spec fn view(&self) -> AuthCoordinationResult<Seq<char>> {
        match *self {
            AuthCoordinationResult::HandleAuth { auth_url } => AuthCoordinationResult::HandleAuth {
                auth_url: auth_url@,
            },
            AuthCoordinationResult::WaitForAuth {
                lock_file,
            } => AuthCoordinationResult::WaitForAuth { lock_file: lock_file@ },
            AuthCoordinationResult::AuthDone { auth_config } => AuthCoordinationResult::AuthDone {
                auth_config: auth_config@,
            },
        }
    }
}

// ---------------------------------------------------------------- who authenticates

/// What is to be done next to find out what this process does.
#[derive(Debug)]
pub enum CoordinateStep<S = String> {
    /// Get the tokens that are kept.
    GetConfig { server_url_hash: S, server_url: S, callback_port: u16 },
    /// Take the lock of the server, and tell the identifier of this process.
    CreateLock { server_url_hash: S, server_url: S, callback_port: u16 },
    /// Begin an authorization.
    Initialize,
    Done(Result<AuthCoordinationResult<S>, CoordinationError<S>>),
}

/// What came of such a step.
#[derive(Debug)]
pub enum CoordinateEvent<S = String> {
    Config(Result<AuthConfig<S>, AuthError<S>>),
    Lock { lock: Result<LockFile<S>, ConfigError<S>>, pid: u32 },
    Initialized(Result<S, AuthError<S>>),
}

impl View for CoordinateStep {
    type V = CoordinateStep<Seq<char>>;

    open spec fn view(&self) -> CoordinateStep<Seq<char>> {
        match *self {
            CoordinateStep::GetConfig {
                server_url_hash,
                server_url,
                callback_port,
            } => CoordinateStep::GetConfig {
                server_url_hash: server_url_hash@,
                server_url: server_url@,
                callback_port,
            },
            CoordinateStep::CreateLock {
                server_url_hash,
                server_url,
                callback_port,
            } => CoordinateStep::CreateLock {
                server_url_hash: server_url_hash@,
                server_url: server_url@,
                callback_port,
            },
            CoordinateStep::Initialize => CoordinateStep::Initialize,
            CoordinateStep::Done(r) => CoordinateStep::Done(result_view(r)),
        }
    }
}

impl View for CoordinateEvent {
    type V = CoordinateEvent<Seq<char>>;

    open spec fn view(&self) -> CoordinateEvent<Seq<char>> {
        match *self {
            CoordinateEvent::Config(r) => CoordinateEvent::Config(result_view(r)),
            CoordinateEvent::Lock { lock, pid } => CoordinateEvent::Lock {
                lock: result_view(lock),
                pid,
            },
            CoordinateEvent::Initialized(r) => CoordinateEvent::Initialized(result_view(r)),
        }
    }
}

impl CoordinateStep<Seq<char>> {
    /// The step that follows an event.
    pub open spec fn after(self, event: CoordinateEvent<Seq<char>>) -> Self {
        match (self, event) {
            (
                CoordinateStep::GetConfig { server_url_hash, server_url, callback_port },
                CoordinateEvent::Config(config),
            ) => match config {
                Ok(auth_config) => CoordinateStep::Done(
                    Ok(AuthCoordinationResult::AuthDone { auth_config }),
                ),
                Err(AuthError::AuthRequired) => CoordinateStep::CreateLock {
                    server_url_hash,
                    server_url,
                    callback_port,
                },
                Err(e) => CoordinateStep::Done(Err(CoordinationError::Auth(e))),
            },
            (
                CoordinateStep::CreateLock { server_url_hash, server_url, callback_port },
                CoordinateEvent::Lock { lock, pid },
            ) => match lock {
                Ok(lock_file) => if lock_file.pid == pid {
                    CoordinateStep::Initialize
                } else {
                    CoordinateStep::Done(Ok(AuthCoordinationResult::WaitForAuth { lock_file }))
                },
                Err(e) => CoordinateStep::Done(Err(CoordinationError::Config(e))),
            },
            (CoordinateStep::Initialize, CoordinateEvent::Initialized(url)) => match url {
                Ok(auth_url) => CoordinateStep::Done(
                    Ok(AuthCoordinationResult::HandleAuth { auth_url }),
                ),
                Err(e) => CoordinateStep::Done(Err(CoordinationError::Auth(e))),
            },
            _ => self,
        }
    }
}

impl CoordinateStep {
    /// The step that follows an event.
    pub fn next(self, event: CoordinateEvent) -> (r: Self)
        ensures
            r@ == self@.after(event@),
    {
        match (self, event) {
            (
                CoordinateStep::GetConfig { server_url_hash, server_url, callback_port },
                CoordinateEvent::Config(config),
            ) => match config {
                Ok(auth_config) => CoordinateStep::Done(
                    Ok(AuthCoordinationResult::AuthDone { auth_config }),
                ),
                Err(e) => match e {
                    AuthError::AuthRequired => CoordinateStep::CreateLock {
                        server_url_hash,
                        server_url,
                        callback_port,
                    },
                    e => CoordinateStep::Done(Err(CoordinationError::Auth(e))),
                },
            },
            (
                CoordinateStep::CreateLock { server_url_hash: _, server_url: _, callback_port: _ },
                CoordinateEvent::Lock { lock, pid },
            ) => match lock {
                Ok(lock_file) => {
                    if lock_file.pid == pid {
                        CoordinateStep::Initialize
                    } else {
                        CoordinateStep::Done(Ok(AuthCoordinationResult::WaitForAuth { lock_file }))
                    }
                },
                Err(e) => CoordinateStep::Done(Err(CoordinationError::Config(e))),
            },
            (CoordinateStep::Initialize, CoordinateEvent::Initialized(url)) => match url {
                Ok(auth_url) => CoordinateStep::Done(
                    Ok(AuthCoordinationResult::HandleAuth { auth_url }),
                ),
                Err(e) => CoordinateStep::Done(Err(CoordinationError::Auth(e))),
            },
            (step, _) => step,
        }
    }
}

/// The first step of finding out what this process does.
pub open spec fn coordinating(
    server_url_hash: Seq<char>,
    server_url: Seq<char>,
    callback_port: u16,
) -> CoordinateStep<Seq<char>> {
    CoordinateStep::GetConfig { server_url_hash, server_url, callback_port }
}

/// Finds out what this process does about the authentication against a server.
pub fn coordinate_auth(
    server_url_hash: &str,
    auth_client: &AuthClient,
    callback_port: u16,
    _timeout_seconds: Option<u64>,
) -> (r: CoordinateStep)
    ensures
        r@ == coordinating(server_url_hash@, auth_client@.server_url, callback_port),
{
    CoordinateStep::GetConfig {
        server_url_hash: server_url_hash.to_string(),
        server_url: auth_client.server_url.clone(),
        callback_port,
    }
}

// ---------------------------------------------------------------- authenticating

/// How long, in seconds, an authentication is awaited.
pub open spec fn auth_timeout() -> u64 {
    (DEFAULT_COORDINATION_TIMEOUT * 2) as u64
}

/// What is to be done next to authenticate with the user.
#[derive(Debug)]
pub enum HandleAuthStep<S = String> {
    /// Serve the callback on this host and port, under this path.
    Serve { host: S, port: u16, path: S, auth_url: S },
    /// Open the browser at the URL.
    OpenBrowser { auth_url: S },
    /// Await the tokens from the callback for so many seconds.
    AwaitCallback { timeout: u64 },
    /// Shut the callback server down and wait until it has ended.
    Shutdown { result: Result<AuthConfig<S>, CoordinationError<S>> },
    Done(Result<AuthConfig<S>, CoordinationError<S>>),
}

/// What came of such a step.
#[derive(Debug)]
pub enum HandleAuthEvent<S = String> {
    Serving(Result<(), S>),
    BrowserOpened(Result<(), S>),
    Received(AuthConfig<S>),
    ChannelClosed,
    TimedOut,
    ShutDown,
}

impl View for HandleAuthStep {
    type V = HandleAuthStep<Seq<char>>;

    open spec fn view(&self) -> HandleAuthStep<Seq<char>> {
        match *self {
            HandleAuthStep::Serve { host, port, path, auth_url } => HandleAuthStep::Serve {
                host: host@,
                port,
                path: path@,
                auth_url: auth_url@,
            },
            HandleAuthStep::OpenBrowser { auth_url } => HandleAuthStep::OpenBrowser {
                auth_url: auth_url@,
            },
            HandleAuthStep::AwaitCallback { timeout } => HandleAuthStep::AwaitCallback { timeout },
            HandleAuthStep::Shutdown { result } => HandleAuthStep::Shutdown {
                result: result_view(result),
            },
            HandleAuthStep::Done(r) => HandleAuthStep::Done(result_view(r)),
        }
    }
}

impl View for HandleAuthEvent {
    type V = HandleAuthEvent<Seq<char>>;

    open spec fn view(&self) -> HandleAuthEvent<Seq<char>> {
        match *self {
            HandleAuthEvent::Serving(r) => HandleAuthEvent::Serving(result_view(r)),
            HandleAuthEvent::BrowserOpened(r) => HandleAuthEvent::BrowserOpened(result_view(r)),
            HandleAuthEvent::Received(config) => HandleAuthEvent::Received(config@),
            HandleAuthEvent::ChannelClosed => HandleAuthEvent::ChannelClosed,
            HandleAuthEvent::TimedOut => HandleAuthEvent::TimedOut,
            HandleAuthEvent::ShutDown => HandleAuthEvent::ShutDown,
        }
    }
}

impl HandleAuthStep<Seq<char>> {
    /// Whether the callback server is running while this step is done.
    pub open spec fn server_runs(self) -> bool {
        self is OpenBrowser || self is AwaitCallback || self is Shutdown
    }

    /// The step that follows an event.
    pub open spec fn after(self, event: HandleAuthEvent<Seq<char>>) -> Self {
        match (self, event) {
            (
                HandleAuthStep::Serve { host, port, path, auth_url },
                HandleAuthEvent::Serving(Ok(_)),
            ) => HandleAuthStep::OpenBrowser { auth_url },
            (
                HandleAuthStep::Serve { host, port, path, auth_url },
                HandleAuthEvent::Serving(Err(m)),
            ) => HandleAuthStep::Done(Err(CoordinationError::Io(m))),
            (HandleAuthStep::OpenBrowser { auth_url }, HandleAuthEvent::BrowserOpened(Ok(_))) => {
                HandleAuthStep::AwaitCallback { timeout: auth_timeout() }
            },
            (HandleAuthStep::OpenBrowser { auth_url }, HandleAuthEvent::BrowserOpened(Err(m))) => {
                HandleAuthStep::Shutdown { result: Err(CoordinationError::Io(m)) }
            },
            (HandleAuthStep::AwaitCallback { timeout }, HandleAuthEvent::Received(config)) => {
                HandleAuthStep::Shutdown { result: Ok(config) }
            },
            (HandleAuthStep::AwaitCallback { timeout }, HandleAuthEvent::ChannelClosed) => {
                HandleAuthStep::Shutdown {
                    result: Err(CoordinationError::Other("Auth channel closed unexpectedly"@)),
                }
            },
            (HandleAuthStep::AwaitCallback { timeout }, HandleAuthEvent::TimedOut) => {
                HandleAuthStep::Shutdown { result: Err(CoordinationError::Timeout) }
            },
            (HandleAuthStep::Shutdown { result }, HandleAuthEvent::ShutDown) => {
                HandleAuthStep::Done(result)
            },
            _ => self,
        }
    }
}

impl HandleAuthStep {
    /// The step that follows an event.
    pub fn next(self, event: HandleAuthEvent) -> (r: Self)
        ensures
            r@ == self@.after(event@),
    {
        match (self, event) {
            (
                HandleAuthStep::Serve { host: _, port: _, path: _, auth_url },
                HandleAuthEvent::Serving(serving),
            ) => match serving {
                Ok(_) => HandleAuthStep::OpenBrowser { auth_url },
                Err(m) => HandleAuthStep::Done(Err(CoordinationError::Io(m))),
            },
            (HandleAuthStep::OpenBrowser { auth_url: _ }, HandleAuthEvent::BrowserOpened(opened)) => {
                match opened {
                    Ok(_) => HandleAuthStep::AwaitCallback {
                        timeout: DEFAULT_COORDINATION_TIMEOUT * 2,
                    },
                    Err(m) => HandleAuthStep::Shutdown { result: Err(CoordinationError::Io(m)) },
                }
            },
            (HandleAuthStep::AwaitCallback { timeout: _ }, HandleAuthEvent::Received(config)) => {
                HandleAuthStep::Shutdown { result: Ok(config) }
            },
            (HandleAuthStep::AwaitCallback { timeout: _ }, HandleAuthEvent::ChannelClosed) => {
                HandleAuthStep::Shutdown {
                    result: Err(
                        CoordinationError::Other("Auth channel closed unexpectedly".to_string()),
                    ),
                }
            },
            (HandleAuthStep::AwaitCallback { timeout: _ }, HandleAuthEvent::TimedOut) => {
                HandleAuthStep::Shutdown { result: Err(CoordinationError::Timeout) }
            },
            (HandleAuthStep::Shutdown { result }, HandleAuthEvent::ShutDown) => {
                HandleAuthStep::Done(result)
            },
            (step, _) => step,
        }
    }
}

/// The first step of authenticating with the user.
pub open spec fn handling_auth(auth_url: Seq<char>, callback_port: u16) -> HandleAuthStep<
    Seq<char>,
> {
    HandleAuthStep::Serve {
        host: CALLBACK_HOST@,
        port: callback_port,
        path: CALLBACK_PATH@,
        auth_url,
    }
}

/// Authenticates with the user at `auth_url`.
pub fn handle_auth(auth_url: &str, callback_port: u16) -> (r: HandleAuthStep)
    ensures
        r@ == handling_auth(auth_url@, callback_port),
{
    HandleAuthStep::Serve {
        host: CALLBACK_HOST.to_string(),
        port: callback_port,
        path: CALLBACK_PATH.to_string(),
        auth_url: auth_url.to_string(),
    }
}

// ---------------------------------------------------------------- waiting

/// How long, in seconds, is waited between two looks at the lock.
pub const POLL_INTERVAL: u64 = 1;

/// What is to be done next to wait for the process that holds a lock.
#[derive(Debug)]
pub enum WaitStep<S = String> {
    /// Read the lock of the server, and the time.
    ReadLock { server_url_hash: S, pid: u32 },
    /// Get the tokens that are kept.
    GetConfig { server_url_hash: S, pid: u32 },
    /// Tell for how many whole seconds has been waited.
    CheckTime { server_url_hash: S, pid: u32 },
    /// Wait for so many seconds.
    Sleep { server_url_hash: S, pid: u32, secs: u64 },
    Done(Result<AuthConfig<S>, CoordinationError<S>>),
}

/// What came of such a step.
#[derive(Debug)]
pub enum WaitEvent<S = String> {
    Lock { lock: Result<LockFile<S>, ConfigError<S>>, now: u64 },
    Config(Result<AuthConfig<S>, AuthError<S>>),
    Elapsed(u64),
    Slept,
}

impl View for WaitStep {
    type V = WaitStep<Seq<char>>;

    open spec fn view(&self) -> WaitStep<Seq<char>> {
        match *self {
            WaitStep::ReadLock { server_url_hash, pid } => WaitStep::ReadLock {
                server_url_hash: server_url_hash@,
                pid,
            },
            WaitStep::GetConfig { server_url_hash, pid } => WaitStep::GetConfig {
                server_url_hash: server_url_hash@,
                pid,
            },
            WaitStep::CheckTime { server_url_hash, pid } => WaitStep::CheckTime {
                server_url_hash: server_url_hash@,
                pid,
            },
            WaitStep::Sleep { server_url_hash, pid, secs } => WaitStep::Sleep {
                server_url_hash: server_url_hash@,
                pid,
                secs,
            },
            WaitStep::Done(r) => WaitStep::Done(result_view(r)),
        }
    }
}

impl View for WaitEvent {
    type V = WaitEvent<Seq<char>>;

    open spec fn view(&self) -> WaitEvent<Seq<char>> {
        match *self {
            WaitEvent::Lock { lock, now } => WaitEvent::Lock { lock: result_view(lock), now },
            WaitEvent::Config(r) => WaitEvent::Config(result_view(r)),
            WaitEvent::Elapsed(secs) => WaitEvent::Elapsed(secs),
            WaitEvent::Slept => WaitEvent::Slept,
        }
    }
}

impl WaitEvent {
    /// The event of a lock that was read just now.
    pub fn lock_read(lock: Result<LockFile, ConfigError>, clock: &mut Clock) -> (r: Self)
        ensures
            final(clock).read_once(*old(clock)),
            r@ == (WaitEvent::Lock { lock: result_view(lock), now: final(clock).seconds() }),
    {
        WaitEvent::Lock { lock, now: now_seconds(clock) }
    }
}

impl WaitStep<Seq<char>> {
    /// Whether the expiry of the lock that an event decides on is a time.
    pub open spec fn accepts(self, event: WaitEvent<Seq<char>>) -> bool {
        match (self, event) {
            (
                WaitStep::ReadLock { server_url_hash, pid },
                WaitEvent::Lock { lock: Ok(lock), now },
            ) => lock.pid == pid ==> lock.created_at + LOCK_EXPIRY_SECS <= u64::MAX,
            _ => true,
        }
    }

    /// The step that follows an event.
    pub open spec fn after(self, event: WaitEvent<Seq<char>>) -> Self {
        match (self, event) {
            (WaitStep::ReadLock { server_url_hash, pid }, WaitEvent::Lock { lock, now }) => {
                match lock {
                    Ok(current) => if current.pid != pid || lock_expired(current.created_at, now) {
                        WaitStep::Done(Err(CoordinationError::Other("Lock changed or expired"@)))
                    } else {
                        WaitStep::GetConfig { server_url_hash, pid }
                    },
                    Err(ConfigError::NotFound) => WaitStep::GetConfig { server_url_hash, pid },
                    Err(e) => WaitStep::Done(Err(CoordinationError::Config(e))),
                }
            },
            (WaitStep::GetConfig { server_url_hash, pid }, WaitEvent::Config(config)) => {
                match config {
                    Ok(config) => WaitStep::Done(Ok(config)),
                    Err(AuthError::AuthRequired) => WaitStep::CheckTime { server_url_hash, pid },
                    Err(e) => WaitStep::Done(Err(CoordinationError::Auth(e))),
                }
            },
            (WaitStep::CheckTime { server_url_hash, pid }, WaitEvent::Elapsed(secs)) => {
                if secs >= auth_timeout() {
                    WaitStep::Done(Err(CoordinationError::Timeout))
                } else {
                    WaitStep::Sleep { server_url_hash, pid, secs: POLL_INTERVAL }
                }
            },
            (WaitStep::Sleep { server_url_hash, pid, secs }, WaitEvent::Slept) => {
                WaitStep::ReadLock { server_url_hash, pid }
            },
            _ => self,
        }
    }
}

impl WaitStep {
    /// Whether the expiry of the lock that an event decides on is a time.
    pub fn is_accepted(&self, event: &WaitEvent) -> (r: bool)
        ensures
            r == self@.accepts(event@),
    {
        match (self, event) {
            (
                WaitStep::ReadLock { server_url_hash: _, pid },
                WaitEvent::Lock { lock: Ok(lock), now: _ },
            ) => lock.pid != *pid || lock.created_at <= u64::MAX - LOCK_EXPIRY_SECS,
            _ => true,
        }
    }

    /// The step that follows an event.
    pub fn next(self, event: WaitEvent) -> (r: Self)
        requires
            self@.accepts(event@),
        ensures
            r@ == self@.after(event@),
    {
        match (self, event) {
            (WaitStep::ReadLock { server_url_hash, pid }, WaitEvent::Lock { lock, now }) => {
                match lock {
                    Ok(current) => {
                        if current.pid != pid || is_lock_expired_at(&current, now) {
                            WaitStep::Done(
                                Err(
                                    CoordinationError::Other("Lock changed or expired".to_string()),
                                ),
                            )
                        } else {
                            WaitStep::GetConfig { server_url_hash, pid }
                        }
                    },
                    Err(e) => match e {
                        ConfigError::NotFound => WaitStep::GetConfig { server_url_hash, pid },
                        e => WaitStep::Done(Err(CoordinationError::Config(e))),
                    },
                }
            },
            (WaitStep::GetConfig { server_url_hash, pid }, WaitEvent::Config(config)) => {
                match config {
                    Ok(config) => WaitStep::Done(Ok(config)),
                    Err(e) => match e {
                        AuthError::AuthRequired => WaitStep::CheckTime { server_url_hash, pid },
                        e => WaitStep::Done(Err(CoordinationError::Auth(e))),
                    },
                }
            },
            (WaitStep::CheckTime { server_url_hash, pid }, WaitEvent::Elapsed(secs)) => {
                if secs >= DEFAULT_COORDINATION_TIMEOUT * 2 {
                    WaitStep::Done(Err(CoordinationError::Timeout))
                } else {
                    WaitStep::Sleep { server_url_hash, pid, secs: POLL_INTERVAL }
                }
            },
            (WaitStep::Sleep { server_url_hash, pid, secs: _ }, WaitEvent::Slept) => {
                WaitStep::ReadLock { server_url_hash, pid }
            },
            (step, _) => step,
        }
    }
}

/// The first step of waiting for the process `pid`.
pub open spec fn waiting(server_url_hash: Seq<char>, pid: u32) -> WaitStep<Seq<char>> {
    WaitStep::ReadLock { server_url_hash, pid }
}

/// Waits for the process that holds a lock to authenticate.
pub fn wait_for_auth(auth_client: &AuthClient, lock_file: &LockFile) -> (r: WaitStep)
    ensures
        r@ == waiting(auth_client@.server_url_hash, lock_file.pid),
{
    WaitStep::ReadLock {
        server_url_hash: auth_client.server_url_hash.clone(),
        pid: lock_file.pid,
    }
}

} // verus!
