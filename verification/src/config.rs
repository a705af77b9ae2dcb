//! The files in which the proxy keeps its state: where they lie, what they hold
//! and in which order they are read and written.
use vstd::prelude::*;
use vstd::string::*;

use crate::outside::{is_uuid_text, Clock};
use crate::text::{contains_text, decimal, decimal_text, has_text, opt_view, result_view};
use crate::utils::{is_lock_expired_at, lock_expired, LOCK_EXPIRY_SECS};
use crate::utils::{new_session_id, now_seconds};

verus! {

/// The version that names the directory of this release.
pub const MCP_REMOTE_VERSION: &'static str = "0.1.0";

/// What can go wrong with a file. A message stands for the error that the
/// operating system or the JSON reader gave.
#[derive(Debug)]
pub enum ConfigError<S = String> {
    Io(S),
    Json(S),
    NotFound,
    Lock(S),
}

impl View for ConfigError {
    type V = ConfigError<Seq<char>>;

    open spec fn view(&self) -> ConfigError<Seq<char>> {
        match *self {
            ConfigError::Io(m) => ConfigError::Io(m@),
            ConfigError::Json(m) => ConfigError::Json(m@),
            ConfigError::NotFound => ConfigError::NotFound,
            ConfigError::Lock(m) => ConfigError::Lock(m@),
        }
    }
}

impl ConfigError<Seq<char>> {
    /// The error as it is shown to a user.
    pub open spec fn text(self) -> Seq<char> {
        match self {
            ConfigError::Io(m) => "IO error: "@ + m,
            ConfigError::Json(m) => "JSON error: "@ + m,
            ConfigError::NotFound => "Config not found"@,
            ConfigError::Lock(m) => "Lock error: "@ + m,
        }
    }
}

impl ConfigError {
    /// The error as it is shown to a user.
    pub fn message(&self) -> (r: String)
        ensures
            r@ == self@.text(),
    {
        match self {
            ConfigError::Io(m) => "IO error: ".to_string().concat(m.as_str()),
            ConfigError::Json(m) => "JSON error: ".to_string().concat(m.as_str()),
            ConfigError::NotFound => "Config not found".to_string(),
            ConfigError::Lock(m) => "Lock error: ".to_string().concat(m.as_str()),
        }
    }
}

/// The tokens of a server, as they are kept on disk.
#[derive(Debug)]
pub struct AuthConfig<S = String> {
    pub server_url: S,
    pub access_token: Option<S>,
    pub refresh_token: Option<S>,
    pub expires_at: Option<u64>,
    pub auth_state: Option<S>,
    pub session_id: S,
}

impl View for AuthConfig {
    type V = AuthConfig<Seq<char>>;

    open spec fn view(&self) -> AuthConfig<Seq<char>> {
        AuthConfig {
            server_url: self.server_url@,
            access_token: opt_view(self.access_token),
            refresh_token: opt_view(self.refresh_token),
            expires_at: self.expires_at,
            auth_state: opt_view(self.auth_state),
            session_id: self.session_id@,
        }
    }
}

impl Clone for AuthConfig {
    fn clone(&self) -> (r: Self)
        ensures
            r@ == self@,
    {
        AuthConfig {
            server_url: self.server_url.clone(),
            access_token: self.access_token.clone(),
            refresh_token: self.refresh_token.clone(),
            expires_at: self.expires_at,
            auth_state: self.auth_state.clone(),
            session_id: self.session_id.clone(),
        }
    }
}

/// The lock of the process that is authenticating against a server.
#[derive(Debug)]
pub struct LockFile<S = String> {
    pub session_id: S,
    pub server_url: S,
    pub callback_port: u16,
    pub created_at: u64,
    pub pid: u32,
}

impl View for LockFile {
    type V = LockFile<Seq<char>>;

    open spec fn view(&self) -> LockFile<Seq<char>> {
        LockFile {
            session_id: self.session_id@,
            server_url: self.server_url@,
            callback_port: self.callback_port,
            created_at: self.created_at,
            pid: self.pid,
        }
    }
}

impl Clone for LockFile {
    fn clone(&self) -> (r: Self)
        ensures
            r@ == self@,
    {
        LockFile {
            session_id: self.session_id.clone(),
            server_url: self.server_url.clone(),
            callback_port: self.callback_port,
            created_at: self.created_at,
            pid: self.pid,
        }
    }
}

/// A path: a root as the environment gave it, or a name within a directory.
#[derive(Debug)]
pub enum FilePath<S = String> {
    Root(S),
    Within(Box<FilePath<S>>, S),
}

impl View for FilePath {
    type V = FilePath<Seq<char>>;

    open spec fn view(&self) -> FilePath<Seq<char>>
        decreases self,
    {
        match *self {
            FilePath::Root(root) => FilePath::Root(root@),
            FilePath::Within(dir, name) => FilePath::Within(Box::new((*dir).view()), name@),
        }
    }
}

impl FilePath<Seq<char>> {
    /// The path of `name` within this directory.
    pub open spec fn join(self, name: Seq<char>) -> FilePath<Seq<char>> {
        FilePath::Within(Box::new(self), name)
    }
}

impl FilePath {
    /// The path of `name` within this directory.
    pub fn within(self, name: String) -> (r: FilePath)
        ensures
            r@ == self@.join(name@),
    {
        FilePath::Within(Box::new(self), name)
    }

    /// A copy of the path.
    pub fn copy(&self) -> (r: FilePath)
        ensures
            r@ == self@,
        decreases self,
    {
        match self {
            FilePath::Root(root) => FilePath::Root(root.clone()),
            FilePath::Within(dir, name) => FilePath::Within(Box::new(dir.copy()), name.clone()),
        }
    }
}

/// The directory of the proxy's files, given the directory that the environment
/// names, if any, and the home directory, if there is one.
pub open spec fn config_dir(
    named: Option<Seq<char>>,
    home: Option<Seq<char>>,
) -> FilePath<Seq<char>> {
    let base = match named {
        Some(dir) => FilePath::Root(dir),
        None => FilePath::Root(
            match home {
                Some(dir) => dir,
                None => "."@,
            },
        ).join(".mcp-auth"@),
    };
    base.join("mcp-proxy-rust-"@ + MCP_REMOTE_VERSION@)
}

/// The directory of the proxy's files. `named` is the value of the environment
/// variable `MCP_REMOTE_CONFIG_DIR`, `home` the home directory.
pub fn get_config_dir(named: Option<String>, home: Option<String>) -> (r: FilePath)
    ensures
        r@ == config_dir(opt_view(named), opt_view(home)),
{
    let base: FilePath = match named {
        Some(dir) => FilePath::Root(dir),
        None => {
            let top: FilePath = FilePath::Root(
                match home {
                    Some(dir) => dir,
                    None => ".".to_string(),
                },
            );
            top.within(".mcp-auth".to_string())
        },
    };
    base.within("mcp-proxy-rust-".to_string().concat(MCP_REMOTE_VERSION))
}

/// The name of the file that holds the tokens of a server.
pub open spec fn auth_file_name(hash: Seq<char>) -> Seq<char> {
    "auth-"@ + hash + ".json"@
}

/// The name of the file that holds the lock of a server.
pub open spec fn lock_file_name(hash: Seq<char>) -> Seq<char> {
    "auth-"@ + hash + ".lock"@
}

/// The name of the file that holds the client registration with a server.
pub open spec fn registration_file_name(hash: Seq<char>) -> Seq<char> {
    "client-registration-"@ + hash + ".json"@
}

/// The files of the proxy.
#[derive(Debug)]
pub struct ConfigManager<S = String> {
    pub config_dir: FilePath<S>,
}

impl View for ConfigManager {
    type V = ConfigManager<Seq<char>>;

    open spec fn view(&self) -> ConfigManager<Seq<char>> {
        ConfigManager { config_dir: self.config_dir@ }
    }
}

impl ConfigManager {
    /// The files in the given directory, which is that of `get_config_dir`.
    pub fn new(config_dir: FilePath) -> (r: Self)
        ensures
            r@.config_dir == config_dir@,
    {
        ConfigManager { config_dir }
    }

    fn file(&self, before: &str, hash: &str, after: &str) -> (r: FilePath)
        ensures
            r@ == self@.config_dir.join(before@ + hash@ + after@),
    {
        let name: String = before.to_string().concat(hash).concat(after);
        self.config_dir.copy().within(name)
    }

    /// Where the tokens of a server are kept.
    pub fn get_auth_config_path(&self, server_url_hash: &str) -> (r: FilePath)
        ensures
            r@ == self@.config_dir.join(auth_file_name(server_url_hash@)),
    {
        self.file("auth-", server_url_hash, ".json")
    }

    /// Where the lock of a server is kept.
    pub fn get_lock_file_path(&self, server_url_hash: &str) -> (r: FilePath)
        ensures
            r@ == self@.config_dir.join(lock_file_name(server_url_hash@)),
    {
        self.file("auth-", server_url_hash, ".lock")
    }

    /// Where the client registration with a server is kept.
    pub fn get_registration_path(&self, server_url_hash: &str) -> (r: FilePath)
        ensures
            r@ == self@.config_dir.join(registration_file_name(server_url_hash@)),
    {
        self.file("client-registration-", server_url_hash, ".json")
    }
}

// ---------------------------------------------------------------- reading a file

/// What is to be done next to read a file that holds a `T`. An event for which a
/// step does not wait leaves the step as it is.
#[derive(Debug)]
pub enum LoadStep<T, S = String> {
    /// Tell whether the file exists.
    Probe { path: FilePath<S> },
    /// Read the whole file as text.
    Read { path: FilePath<S> },
    /// Read the `T` from its JSON text.
    Parse { text: S },
    Done(Result<T, ConfigError<S>>),
}

/// What came of a step of reading a file.
#[derive(Debug)]
pub enum LoadEvent<T, S = String> {
    Exists(bool),
    Contents(Result<S, S>),
    Parsed(Result<T, S>),
}

impl<T: View> View for LoadStep<T> {
    type V = LoadStep<T::V, Seq<char>>;

    open spec fn view(&self) -> LoadStep<T::V, Seq<char>> {
        match *self {
            LoadStep::Probe { path } => LoadStep::Probe { path: path@ },
            LoadStep::Read { path } => LoadStep::Read { path: path@ },
            LoadStep::Parse { text } => LoadStep::Parse { text: text@ },
            LoadStep::Done(r) => LoadStep::Done(result_view(r)),
        }
    }
}

impl<T: View> View for LoadEvent<T> {
    type V = LoadEvent<T::V, Seq<char>>;

    open spec fn view(&self) -> LoadEvent<T::V, Seq<char>> {
        match *self {
            LoadEvent::Exists(b) => LoadEvent::Exists(b),
            LoadEvent::Contents(r) => LoadEvent::Contents(result_view(r)),
            LoadEvent::Parsed(r) => LoadEvent::Parsed(result_view(r)),
        }
    }
}

impl<T> LoadStep<T, Seq<char>> {
    /// The step that follows an event.
    pub open spec fn after(self, event: LoadEvent<T, Seq<char>>) -> Self {
        match (self, event) {
            (LoadStep::Probe { path }, LoadEvent::Exists(true)) => LoadStep::Read { path },
            (LoadStep::Probe { path }, LoadEvent::Exists(false)) => LoadStep::Done(
                Err(ConfigError::NotFound),
            ),
            (LoadStep::Read { path }, LoadEvent::Contents(Ok(text))) => LoadStep::Parse { text },
            (LoadStep::Read { path }, LoadEvent::Contents(Err(m))) => LoadStep::Done(
                Err(ConfigError::Io(m)),
            ),
            (LoadStep::Parse { text }, LoadEvent::Parsed(Ok(v))) => LoadStep::Done(Ok(v)),
            (LoadStep::Parse { text }, LoadEvent::Parsed(Err(m))) => LoadStep::Done(
                Err(ConfigError::Json(m)),
            ),
            _ => self,
        }
    }
}

impl<T: View> LoadStep<T> {
    /// The step that follows an event.
    pub fn next(self, event: LoadEvent<T>) -> (r: Self)
        ensures
            r@ == self@.after(event@),
    {
        match (self, event) {
            (LoadStep::Probe { path }, LoadEvent::Exists(exists)) => {
                if exists {
                    LoadStep::Read { path }
                } else {
                    LoadStep::Done(Err(ConfigError::NotFound))
                }
            },
            (LoadStep::Read { path: _ }, LoadEvent::Contents(read)) => match read {
                Ok(text) => LoadStep::Parse { text },
                Err(m) => LoadStep::Done(Err(ConfigError::Io(m))),
            },
            (LoadStep::Parse { text: _ }, LoadEvent::Parsed(parsed)) => match parsed {
                Ok(v) => LoadStep::Done(Ok(v)),
                Err(m) => LoadStep::Done(Err(ConfigError::Json(m))),
            },
            (step, _) => step,
        }
    }
}

// ---------------------------------------------------------------- the directory

/// What is to be done next to have the directory of the files.
#[derive(Debug)]
pub enum DirStep<S = String> {
    /// Tell whether the directory exists.
    Probe { dir: FilePath<S> },
    /// Create the directory and those above it.
    Create { dir: FilePath<S> },
    Done(Result<(), ConfigError<S>>),
}

/// What came of a step of making the directory.
#[derive(Debug)]
pub enum DirEvent<S = String> {
    Exists(bool),
    Created(Result<(), S>),
}

impl View for DirStep {
    type V = DirStep<Seq<char>>;

    open spec fn view(&self) -> DirStep<Seq<char>> {
        match *self {
            DirStep::Probe { dir } => DirStep::Probe { dir: dir@ },
            DirStep::Create { dir } => DirStep::Create { dir: dir@ },
            DirStep::Done(r) => DirStep::Done(result_view(r)),
        }
    }
}

impl View for DirEvent {
    type V = DirEvent<Seq<char>>;

    open spec fn view(&self) -> DirEvent<Seq<char>> {
        match *self {
            DirEvent::Exists(b) => DirEvent::Exists(b),
            DirEvent::Created(r) => DirEvent::Created(result_view(r)),
        }
    }
}

impl DirStep<Seq<char>> {
    /// The step that follows an event.
    pub open spec fn after(self, event: DirEvent<Seq<char>>) -> Self {
        match (self, event) {
            (DirStep::Probe { dir }, DirEvent::Exists(true)) => DirStep::Done(Ok(())),
            (DirStep::Probe { dir }, DirEvent::Exists(false)) => DirStep::Create { dir },
            (DirStep::Create { dir }, DirEvent::Created(Ok(_))) => DirStep::Done(Ok(())),
            (DirStep::Create { dir }, DirEvent::Created(Err(m))) => DirStep::Done(
                Err(ConfigError::Io(m)),
            ),
            _ => self,
        }
    }
}

impl DirStep {
    /// The step that follows an event.
    pub fn next(self, event: DirEvent) -> (r: Self)
        ensures
            r@ == self@.after(event@),
    {
        match (self, event) {
            (DirStep::Probe { dir }, DirEvent::Exists(exists)) => {
                if exists {
                    DirStep::Done(Ok(()))
                } else {
                    DirStep::Create { dir }
                }
            },
            (DirStep::Create { dir: _ }, DirEvent::Created(created)) => match created {
                Ok(_) => DirStep::Done(Ok(())),
                Err(m) => DirStep::Done(Err(ConfigError::Io(m))),
            },
            (step, _) => step,
        }
    }
}

// ---------------------------------------------------------------- writing the tokens

/// What is to be done next to keep the tokens of a server.
#[derive(Debug)]
pub enum SaveStep<S = String> {
    /// Have the directory of the files.
    EnsureDir { path: FilePath<S>, config: AuthConfig<S> },
    /// Write the tokens as pretty JSON text.
    Serialize { path: FilePath<S>, config: AuthConfig<S> },
    /// Make the file hold exactly the text.
    Write { path: FilePath<S>, text: S },
    Done(Result<(), ConfigError<S>>),
}

/// What came of a step of keeping the tokens.
#[derive(Debug)]
pub enum SaveEvent<S = String> {
    Dir(Result<(), ConfigError<S>>),
    Serialized(Result<S, S>),
    Written(Result<(), S>),
}

impl View for SaveStep {
    type V = SaveStep<Seq<char>>;

    open spec fn view(&self) -> SaveStep<Seq<char>> {
        match *self {
            SaveStep::EnsureDir { path, config } => SaveStep::EnsureDir {
                path: path@,
                config: config@,
            },
            SaveStep::Serialize { path, config } => SaveStep::Serialize {
                path: path@,
                config: config@,
            },
            SaveStep::Write { path, text } => SaveStep::Write { path: path@, text: text@ },
            SaveStep::Done(r) => SaveStep::Done(result_view(r)),
        }
    }
}

impl View for SaveEvent {
    type V = SaveEvent<Seq<char>>;

    open spec fn view(&self) -> SaveEvent<Seq<char>> {
        match *self {
            SaveEvent::Dir(r) => SaveEvent::Dir(result_view(r)),
            SaveEvent::Serialized(r) => SaveEvent::Serialized(result_view(r)),
            SaveEvent::Written(r) => SaveEvent::Written(result_view(r)),
        }
    }
}

impl SaveStep<Seq<char>> {
    /// The step that follows an event.
    pub open spec fn after(self, event: SaveEvent<Seq<char>>) -> Self {
        match (self, event) {
            (SaveStep::EnsureDir { path, config }, SaveEvent::Dir(Ok(_))) => SaveStep::Serialize {
                path,
                config,
            },
            (SaveStep::EnsureDir { path, config }, SaveEvent::Dir(Err(e))) => SaveStep::Done(
                Err(e),
            ),
            (
                SaveStep::Serialize { path, config },
                SaveEvent::Serialized(Ok(text)),
            ) => SaveStep::Write { path, text },
            (SaveStep::Serialize { path, config }, SaveEvent::Serialized(Err(m))) => SaveStep::Done(
                Err(ConfigError::Json(m)),
            ),
            (SaveStep::Write { path, text }, SaveEvent::Written(Ok(_))) => SaveStep::Done(Ok(())),
            (SaveStep::Write { path, text }, SaveEvent::Written(Err(m))) => SaveStep::Done(
                Err(ConfigError::Io(m)),
            ),
            _ => self,
        }
    }
}

impl SaveStep {
    /// The step that follows an event.
    pub fn next(self, event: SaveEvent) -> (r: Self)
        ensures
            r@ == self@.after(event@),
    {
        match (self, event) {
            (SaveStep::EnsureDir { path, config }, SaveEvent::Dir(dir)) => match dir {
                Ok(_) => SaveStep::Serialize { path, config },
                Err(e) => SaveStep::Done(Err(e)),
            },
            (SaveStep::Serialize { path, config: _ }, SaveEvent::Serialized(text)) => match text {
                Ok(text) => SaveStep::Write { path, text },
                Err(m) => SaveStep::Done(Err(ConfigError::Json(m))),
            },
            (SaveStep::Write { path: _, text: _ }, SaveEvent::Written(written)) => match written {
                Ok(_) => SaveStep::Done(Ok(())),
                Err(m) => SaveStep::Done(Err(ConfigError::Io(m))),
            },
            (step, _) => step,
        }
    }
}

// ---------------------------------------------------------------- taking the lock

/// Which lock is to be taken, and for whom.
#[derive(Debug)]
pub struct LockRequest<S = String> {
    pub path: FilePath<S>,
    pub server_url: S,
    pub callback_port: u16,
}

/// What is to be done next to take the lock of a server.
#[derive(Debug)]
pub enum LockStep<S = String> {
    /// Have the directory of the files.
    EnsureDir { request: LockRequest<S> },
    /// Read the lock that is there.
    ReadLock { request: LockRequest<S> },
    /// Tell whether the process that holds the lock is running.
    CheckProcess { request: LockRequest<S>, existing: LockFile<S> },
    /// Remove the file; whether that succeeds does not matter.
    RemoveStale { request: LockRequest<S> },
    /// Give the new lock an identifier, a time and this process.
    Stamp { request: LockRequest<S> },
    /// Write the new lock as pretty JSON text.
    Serialize { path: FilePath<S>, lock: LockFile<S> },
    /// Create the file, which must not exist, with the text.
    Create { path: FilePath<S>, text: S, lock: LockFile<S> },
    Done(Result<LockFile<S>, ConfigError<S>>),
}

/// What came of a step of taking a lock.
#[derive(Debug)]
pub enum LockEvent<S = String> {
    Dir(Result<(), ConfigError<S>>),
    Existing(Result<LockFile<S>, ConfigError<S>>),
    Process { running: bool, now: u64 },
    Removed,
    Stamp { session_id: S, now: u64, pid: u32 },
    Serialized(Result<S, S>),
    Created(Result<(), S>),
}

impl View for LockRequest {
    type V = LockRequest<Seq<char>>;

    open spec fn view(&self) -> LockRequest<Seq<char>> {
        LockRequest {
            path: self.path@,
            server_url: self.server_url@,
            callback_port: self.callback_port,
        }
    }
}

impl View for LockStep {
    type V = LockStep<Seq<char>>;

    open spec fn view(&self) -> LockStep<Seq<char>> {
        match *self {
            LockStep::EnsureDir { request } => LockStep::EnsureDir { request: request@ },
            LockStep::ReadLock { request } => LockStep::ReadLock { request: request@ },
            LockStep::CheckProcess { request, existing } => LockStep::CheckProcess {
                request: request@,
                existing: existing@,
            },
            LockStep::RemoveStale { request } => LockStep::RemoveStale { request: request@ },
            LockStep::Stamp { request } => LockStep::Stamp { request: request@ },
            LockStep::Serialize { path, lock } => LockStep::Serialize { path: path@, lock: lock@ },
            LockStep::Create { path, text, lock } => LockStep::Create {
                path: path@,
                text: text@,
                lock: lock@,
            },
            LockStep::Done(r) => LockStep::Done(result_view(r)),
        }
    }
}

impl View for LockEvent {
    type V = LockEvent<Seq<char>>;

    open spec fn view(&self) -> LockEvent<Seq<char>> {
        match *self {
            LockEvent::Dir(r) => LockEvent::Dir(result_view(r)),
            LockEvent::Existing(r) => LockEvent::Existing(result_view(r)),
            LockEvent::Process { running, now } => LockEvent::Process { running, now },
            LockEvent::Removed => LockEvent::Removed,
            LockEvent::Stamp { session_id, now, pid } => LockEvent::Stamp {
                session_id: session_id@,
                now,
                pid,
            },
            LockEvent::Serialized(r) => LockEvent::Serialized(result_view(r)),
            LockEvent::Created(r) => LockEvent::Created(result_view(r)),
        }
    }
}

impl LockEvent {
    /// The event of a process that was looked for just now.
    pub fn process_checked(running: bool, clock: &mut Clock) -> (r: Self)
        ensures
            final(clock).read_once(*old(clock)),
            r@ == (LockEvent::<Seq<char>>::Process { running, now: final(clock).seconds() }),
    {
        LockEvent::Process { running, now: now_seconds(clock) }
    }

    /// A new lock of the process `pid`, made just now.
    pub fn stamp(pid: u32, clock: &mut Clock) -> (r: Self)
        ensures
            final(clock).read_once(*old(clock)),
            r@ matches LockEvent::Stamp { session_id, now, pid: given } && given == pid && now
                == final(clock).seconds() && is_uuid_text(session_id),
    {
        LockEvent::Stamp { session_id: new_session_id(), now: now_seconds(clock), pid }
    }
}

/// Whether a lock holds: its process is running and it has not expired.
pub open spec fn lock_holds<S>(lock: LockFile<S>, running: bool, now: u64) -> bool {
    running && !lock_expired(lock.created_at, now)
}

impl LockRequest<Seq<char>> {
    /// The lock that answers the request.
    pub open spec fn stamped(
        self,
        session_id: Seq<char>,
        now: u64,
        pid: u32,
    ) -> LockFile<Seq<char>> {
        LockFile {
            session_id,
            server_url: self.server_url,
            callback_port: self.callback_port,
            created_at: now,
            pid,
        }
    }
}

impl LockStep<Seq<char>> {
    /// Whether the expiry of the lock that an event decides on is a time.
    pub open spec fn accepts(self, event: LockEvent<Seq<char>>) -> bool {
        match (self, event) {
            (
                LockStep::CheckProcess { request, existing },
                LockEvent::Process { running: true, now },
            ) => existing.created_at + LOCK_EXPIRY_SECS <= u64::MAX,
            _ => true,
        }
    }

    /// The step that follows an event.
    pub open spec fn after(self, event: LockEvent<Seq<char>>) -> Self {
        match (self, event) {
            (LockStep::EnsureDir { request }, LockEvent::Dir(Ok(_))) => LockStep::ReadLock {
                request,
            },
            (LockStep::EnsureDir { request }, LockEvent::Dir(Err(e))) => LockStep::Done(Err(e)),
            (
                LockStep::ReadLock { request },
                LockEvent::Existing(Ok(existing)),
            ) => LockStep::CheckProcess { request, existing },
            (LockStep::ReadLock { request }, LockEvent::Existing(Err(_))) => LockStep::Stamp {
                request,
            },
            (LockStep::CheckProcess { request, existing }, LockEvent::Process { running, now }) => {
                if lock_holds(existing, running, now) {
                    LockStep::Done(Ok(existing))
                } else {
                    LockStep::RemoveStale { request }
                }
            },
            (LockStep::RemoveStale { request }, LockEvent::Removed) => LockStep::Stamp { request },
            (
                LockStep::Stamp { request },
                LockEvent::Stamp { session_id, now, pid },
            ) => LockStep::Serialize {
                path: request.path,
                lock: request.stamped(session_id, now, pid),
            },
            (
                LockStep::Serialize { path, lock },
                LockEvent::Serialized(Ok(text)),
            ) => LockStep::Create { path, text, lock },
            (LockStep::Serialize { path, lock }, LockEvent::Serialized(Err(m))) => LockStep::Done(
                Err(ConfigError::Json(m)),
            ),
            (LockStep::Create { path, text, lock }, LockEvent::Created(Ok(_))) => LockStep::Done(
                Ok(lock),
            ),
            (LockStep::Create { path, text, lock }, LockEvent::Created(Err(m))) => LockStep::Done(
                Err(ConfigError::Io(m)),
            ),
            _ => self,
        }
    }
}

impl LockStep {
    /// Whether the expiry of the lock that an event decides on is a time.
    pub fn is_accepted(&self, event: &LockEvent) -> (r: bool)
        ensures
            r == self@.accepts(event@),
    {
        match (self, event) {
            (
                LockStep::CheckProcess { request: _, existing },
                LockEvent::Process { running: true, now: _ },
            ) => existing.created_at <= u64::MAX - LOCK_EXPIRY_SECS,
            _ => true,
        }
    }

    /// The step that follows an event.
    pub fn next(self, event: LockEvent) -> (r: Self)
        requires
            self@.accepts(event@),
        ensures
            r@ == self@.after(event@),
    {
        match (self, event) {
            (LockStep::EnsureDir { request }, LockEvent::Dir(dir)) => match dir {
                Ok(_) => LockStep::ReadLock { request },
                Err(e) => LockStep::Done(Err(e)),
            },
            (LockStep::ReadLock { request }, LockEvent::Existing(lock)) => match lock {
                Ok(existing) => LockStep::CheckProcess { request, existing },
                Err(_) => LockStep::Stamp { request },
            },
            (LockStep::CheckProcess { request, existing }, LockEvent::Process { running, now }) => {
                if running && !is_lock_expired_at(&existing, now) {
                    LockStep::Done(Ok(existing))
                } else {
                    LockStep::RemoveStale { request }
                }
            },
            (LockStep::RemoveStale { request }, LockEvent::Removed) => LockStep::Stamp { request },
            (LockStep::Stamp { request }, LockEvent::Stamp { session_id, now, pid }) => {
                let lock = LockFile {
                    session_id,
                    server_url: request.server_url,
                    callback_port: request.callback_port,
                    created_at: now,
                    pid,
                };
                LockStep::Serialize { path: request.path, lock }
            },
            (LockStep::Serialize { path, lock }, LockEvent::Serialized(text)) => match text {
                Ok(text) => LockStep::Create { path, text, lock },
                Err(m) => LockStep::Done(Err(ConfigError::Json(m))),
            },
            (LockStep::Create { path: _, text: _, lock }, LockEvent::Created(created)) => {
                match created {
                    Ok(_) => LockStep::Done(Ok(lock)),
                    Err(m) => LockStep::Done(Err(ConfigError::Io(m))),
                }
            },
            (step, _) => step,
        }
    }
}

// ---------------------------------------------------------------- releasing the lock

/// What is to be done next to release a lock.
#[derive(Debug)]
pub enum RemoveStep<S = String> {
    /// Tell whether the file exists.
    Probe { path: FilePath<S> },
    /// Remove the file.
    Remove { path: FilePath<S> },
    Done(Result<(), ConfigError<S>>),
}

/// What came of a step of releasing a lock.
#[derive(Debug)]
pub enum RemoveEvent<S = String> {
    Exists(bool),
    Removed(Result<(), S>),
}

impl View for RemoveStep {
    type V = RemoveStep<Seq<char>>;

    open spec fn view(&self) -> RemoveStep<Seq<char>> {
        match *self {
            RemoveStep::Probe { path } => RemoveStep::Probe { path: path@ },
            RemoveStep::Remove { path } => RemoveStep::Remove { path: path@ },
            RemoveStep::Done(r) => RemoveStep::Done(result_view(r)),
        }
    }
}

impl View for RemoveEvent {
    type V = RemoveEvent<Seq<char>>;

    open spec fn view(&self) -> RemoveEvent<Seq<char>> {
        match *self {
            RemoveEvent::Exists(b) => RemoveEvent::Exists(b),
            RemoveEvent::Removed(r) => RemoveEvent::Removed(result_view(r)),
        }
    }
}

impl RemoveStep<Seq<char>> {
    /// The step that follows an event.
    pub open spec fn after(self, event: RemoveEvent<Seq<char>>) -> Self {
        match (self, event) {
            (RemoveStep::Probe { path }, RemoveEvent::Exists(true)) => RemoveStep::Remove { path },
            (RemoveStep::Probe { path }, RemoveEvent::Exists(false)) => RemoveStep::Done(Ok(())),
            (RemoveStep::Remove { path }, RemoveEvent::Removed(Ok(_))) => RemoveStep::Done(Ok(())),
            (RemoveStep::Remove { path }, RemoveEvent::Removed(Err(m))) => RemoveStep::Done(
                Err(ConfigError::Io(m)),
            ),
            _ => self,
        }
    }
}

impl RemoveStep {
    /// The step that follows an event.
    pub fn next(self, event: RemoveEvent) -> (r: Self)
        ensures
            r@ == self@.after(event@),
    {
        match (self, event) {
            (RemoveStep::Probe { path }, RemoveEvent::Exists(exists)) => {
                if exists {
                    RemoveStep::Remove { path }
                } else {
                    RemoveStep::Done(Ok(()))
                }
            },
            (RemoveStep::Remove { path: _ }, RemoveEvent::Removed(removed)) => match removed {
                Ok(_) => RemoveStep::Done(Ok(())),
                Err(m) => RemoveStep::Done(Err(ConfigError::Io(m))),
            },
            (step, _) => step,
        }
    }
}

/// Whether a list of processes, as the system prints it, tells of the process `pid`.
pub fn lists_process(listing: &str, pid: u32) -> (r: bool)
    ensures
        r == contains_text(listing@, decimal_text(pid as nat)),
{
    has_text(listing, decimal(pid as u64).as_str())
}

impl ConfigManager {
    /// Has the directory of the files.
    pub fn ensure_config_dir(&self) -> (r: DirStep)
        ensures
            r@ == (DirStep::Probe { dir: self@.config_dir }),
    {
        DirStep::Probe { dir: self.config_dir.copy() }
    }

    /// Reads the tokens of a server.
    pub fn load_auth_config(&self, server_url_hash: &str) -> (r: LoadStep<AuthConfig>)
        ensures
            r@ == self@.loading_auth_config(server_url_hash@),
    {
        LoadStep::Probe { path: self.get_auth_config_path(server_url_hash) }
    }

    /// Keeps the tokens of a server.
    pub fn save_auth_config(&self, server_url_hash: &str, config: &AuthConfig) -> (r: SaveStep)
        ensures
            r@ == self@.saving_auth_config(server_url_hash@, config@),
    {
        SaveStep::EnsureDir {
            path: self.get_auth_config_path(server_url_hash),
            config: config.clone(),
        }
    }

    /// Takes the lock of a server, or finds who holds it.
    pub fn create_lock_file(
        &self,
        server_url_hash: &str,
        server_url: &str,
        callback_port: u16,
    ) -> (r: LockStep)
        ensures
            r@ == self@.taking_lock(server_url_hash@, server_url@, callback_port),
    {
        LockStep::EnsureDir {
            request: LockRequest {
                path: self.get_lock_file_path(server_url_hash),
                server_url: server_url.to_string(),
                callback_port,
            },
        }
    }

    /// Reads the lock of a server.
    pub fn read_lock_file(&self, server_url_hash: &str) -> (r: LoadStep<LockFile>)
        ensures
            r@ == self@.reading_lock(server_url_hash@),
    {
        LoadStep::Probe { path: self.get_lock_file_path(server_url_hash) }
    }

    /// Releases the lock of a server.
    pub fn remove_lock_file(&self, server_url_hash: &str) -> (r: RemoveStep)
        ensures
            r@ == self@.releasing_lock(server_url_hash@),
    {
        RemoveStep::Probe { path: self.get_lock_file_path(server_url_hash) }
    }
}

impl ConfigManager<Seq<char>> {
    pub open spec fn auth_config_path(self, hash: Seq<char>) -> FilePath<Seq<char>> {
        self.config_dir.join(auth_file_name(hash))
    }

    pub open spec fn lock_path(self, hash: Seq<char>) -> FilePath<Seq<char>> {
        self.config_dir.join(lock_file_name(hash))
    }

    pub open spec fn registration_path(self, hash: Seq<char>) -> FilePath<Seq<char>> {
        self.config_dir.join(registration_file_name(hash))
    }

    /// The first step of reading the tokens.
    pub open spec fn loading_auth_config(self, hash: Seq<char>) -> LoadStep<
        AuthConfig<Seq<char>>,
        Seq<char>,
    > {
        LoadStep::Probe { path: self.auth_config_path(hash) }
    }

    /// The first step of keeping the tokens.
    pub open spec fn saving_auth_config(
        self,
        hash: Seq<char>,
        config: AuthConfig<Seq<char>>,
    ) -> SaveStep<Seq<char>> {
        SaveStep::EnsureDir { path: self.auth_config_path(hash), config }
    }

    /// The first step of taking the lock.
    pub open spec fn taking_lock(
        self,
        hash: Seq<char>,
        server_url: Seq<char>,
        callback_port: u16,
    ) -> LockStep<Seq<char>> {
        LockStep::EnsureDir {
            request: LockRequest { path: self.lock_path(hash), server_url, callback_port },
        }
    }

    /// The first step of reading the lock.
    pub open spec fn reading_lock(self, hash: Seq<char>) -> LoadStep<
        LockFile<Seq<char>>,
        Seq<char>,
    > {
        LoadStep::Probe { path: self.lock_path(hash) }
    }

    /// The first step of releasing the lock.
    pub open spec fn releasing_lock(self, hash: Seq<char>) -> RemoveStep<Seq<char>> {
        RemoveStep::Probe { path: self.lock_path(hash) }
    }
}

} // verus!
