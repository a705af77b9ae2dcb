//! What comes of reading, writing and removing the files, and of taking a lock.
use vstd::prelude::*;
use vstd::string::*;

use crate::config::{config_dir, lock_holds, AuthConfig, ConfigError, ConfigManager, DirEvent};
use crate::config::{DirStep, FilePath, LoadEvent, LoadStep, LockEvent, LockFile, LockRequest};
use crate::config::{LockStep, RemoveEvent, RemoveStep, SaveEvent, SaveStep};

verus! {

// ---------------------------------------------------------------- where the files are

/// A file of this name in the directory of the files.
pub open spec fn is_in(path: FilePath<Seq<char>>, dir: FilePath<Seq<char>>, name: Seq<char>) -> bool {
    path matches FilePath::Within(above, last) && *above == dir && last == name
}

/// The files of this version lie in the directory that is named, or else in `.mcp-auth` in the
/// home directory or, without one, in the current directory.
pub proof fn files_have_their_place(named: Seq<char>, home: Seq<char>)
    ensures
        ({
            let version = "mcp-proxy-rust-"@ + "0.1.0"@;
            let in_home = FilePath::Within(Box::new(FilePath::Root(home)), ".mcp-auth"@);
            let here = FilePath::Within(Box::new(FilePath::Root("."@)), ".mcp-auth"@);
            &&& is_in(config_dir(Some(named), None), FilePath::Root(named), version)
            &&& is_in(config_dir(Some(named), Some(home)), FilePath::Root(named), version)
            &&& is_in(config_dir(None, Some(home)), in_home, version)
            &&& is_in(config_dir(None, None), here, version)
        }),
{
}

/// The tokens, the lock and the registration of a server are in files of their own, named by the
/// hash of the server.
pub proof fn files_are_named_by_the_server(files: ConfigManager<Seq<char>>, hash: Seq<char>)
    ensures
        is_in(files.auth_config_path(hash), files.config_dir, "auth-"@ + hash + ".json"@),
        is_in(files.lock_path(hash), files.config_dir, "auth-"@ + hash + ".lock"@),
        is_in(
            files.registration_path(hash),
            files.config_dir,
            "client-registration-"@ + hash + ".json"@,
        ),
{
}

/// Every operation on a file of a server is on that file.
pub proof fn operations_are_on_their_file(
    files: ConfigManager<Seq<char>>,
    hash: Seq<char>,
    config: AuthConfig<Seq<char>>,
    server_url: Seq<char>,
    callback_port: u16,
)
    ensures
        ({
            let tokens = "auth-"@ + hash + ".json"@;
            let lock = "auth-"@ + hash + ".lock"@;
            &&& files.loading_auth_config(hash) matches LoadStep::Probe { path } && is_in(
                path,
                files.config_dir,
                tokens,
            )
            &&& files.saving_auth_config(hash, config) matches SaveStep::EnsureDir {
                path,
                config: saved,
            } && saved == config && is_in(path, files.config_dir, tokens)
            &&& files.taking_lock(hash, server_url, callback_port) matches LockStep::EnsureDir {
                request,
            } && is_in(request.path, files.config_dir, lock) && request.server_url == server_url
                && request.callback_port == callback_port
            &&& files.reading_lock(hash) matches LoadStep::Probe { path } && is_in(
                path,
                files.config_dir,
                lock,
            )
            &&& files.releasing_lock(hash) matches RemoveStep::Probe { path } && is_in(
                path,
                files.config_dir,
                lock,
            )
        }),
{
}

// ---------------------------------------------------------------- reading

/// A file that exists is read, and what its text holds is handed out; one that does not is not
/// found; and a failure is told of as what it is.
pub proof fn file_is_read_if_it_exists<T>(
    path: FilePath<Seq<char>>,
    text: Seq<char>,
    value: T,
    m: Seq<char>,
)
    ensures
        ({
            let probe = LoadStep::<T, Seq<char>>::Probe { path };
            let read = probe.after(LoadEvent::Exists(true));
            let parse = read.after(LoadEvent::Contents(Ok(text)));
            &&& read == (LoadStep::<T, Seq<char>>::Read { path })
            &&& parse == (LoadStep::<T, Seq<char>>::Parse { text })
            &&& parse.after(LoadEvent::Parsed(Ok(value))) == LoadStep::<T, Seq<char>>::Done(
                Ok(value),
            )
            &&& probe.after(LoadEvent::Exists(false)) == LoadStep::<T, Seq<char>>::Done(
                Err(ConfigError::NotFound),
            )
            &&& read.after(LoadEvent::Contents(Err(m))) == LoadStep::<T, Seq<char>>::Done(
                Err(ConfigError::Io(m)),
            )
            &&& parse.after(LoadEvent::Parsed(Err(m))) == LoadStep::<T, Seq<char>>::Done(
                Err(ConfigError::Json(m)),
            )
        }),
{
}

// ---------------------------------------------------------------- writing

/// A directory that exists is left alone; one that does not is created.
pub proof fn directory_is_created_if_missing(dir: FilePath<Seq<char>>, m: Seq<char>)
    ensures
        ({
            let probe = DirStep::Probe { dir };
            let create = probe.after(DirEvent::Exists(false));
            &&& probe.after(DirEvent::Exists(true)) == DirStep::<Seq<char>>::Done(Ok(()))
            &&& create == (DirStep::<Seq<char>>::Create { dir })
            &&& create.after(DirEvent::Created(Ok(()))) == DirStep::<Seq<char>>::Done(Ok(()))
            &&& create.after(DirEvent::Created(Err(m))) == DirStep::<Seq<char>>::Done(
                Err(ConfigError::Io(m)),
            )
        }),
{
}

/// The tokens are written as they are, with the directory in place, to the file that was asked
/// for; and a failure is told of as what it is.
pub proof fn tokens_are_written_to_their_file(
    path: FilePath<Seq<char>>,
    config: AuthConfig<Seq<char>>,
    text: Seq<char>,
    m: Seq<char>,
    e: ConfigError<Seq<char>>,
)
    ensures
        ({
            let dir = SaveStep::EnsureDir { path, config };
            let serialize = dir.after(SaveEvent::Dir(Ok(())));
            let write = serialize.after(SaveEvent::Serialized(Ok(text)));
            &&& serialize == (SaveStep::<Seq<char>>::Serialize { path, config })
            &&& write == (SaveStep::<Seq<char>>::Write { path, text })
            &&& write.after(SaveEvent::Written(Ok(()))) == SaveStep::<Seq<char>>::Done(Ok(()))
            &&& dir.after(SaveEvent::Dir(Err(e))) == SaveStep::<Seq<char>>::Done(Err(e))
            &&& serialize.after(SaveEvent::Serialized(Err(m))) == SaveStep::<Seq<char>>::Done(
                Err(ConfigError::Json(m)),
            )
            &&& write.after(SaveEvent::Written(Err(m))) == SaveStep::<Seq<char>>::Done(
                Err(ConfigError::Io(m)),
            )
        }),
{
}

/// A file is removed if it exists.
pub proof fn file_is_removed_if_it_exists(path: FilePath<Seq<char>>, m: Seq<char>)
    ensures
        ({
            let probe = RemoveStep::Probe { path };
            let remove = probe.after(RemoveEvent::Exists(true));
            &&& probe.after(RemoveEvent::Exists(false)) == RemoveStep::<Seq<char>>::Done(Ok(()))
            &&& remove == (RemoveStep::<Seq<char>>::Remove { path })
            &&& remove.after(RemoveEvent::Removed(Ok(()))) == RemoveStep::<Seq<char>>::Done(Ok(()))
            &&& remove.after(RemoveEvent::Removed(Err(m))) == RemoveStep::<Seq<char>>::Done(
                Err(ConfigError::Io(m)),
            )
        }),
{
}

// ---------------------------------------------------------------- a lock

/// A new lock is that of the server and the port that were asked for, and of the process and the
/// moment that took it.
pub proof fn new_lock_is_that_of_its_process(
    request: LockRequest<Seq<char>>,
    session_id: Seq<char>,
    now: u64,
    pid: u32,
)
    ensures
        ({
            let lock = request.stamped(session_id, now, pid);
            &&& lock.session_id == session_id
            &&& lock.server_url == request.server_url
            &&& lock.callback_port == request.callback_port
            &&& lock.created_at == now
            &&& lock.pid == pid
        }),
{
}

/// A lock that is there is left to its process while that runs and ten minutes have not passed.
pub proof fn running_process_keeps_its_lock(
    request: LockRequest<Seq<char>>,
    existing: LockFile<Seq<char>>,
    running: bool,
    now: u64,
)
    requires
        existing.created_at + 600 <= u64::MAX,
    ensures
        ({
            let read = LockStep::ReadLock { request };
            let check = read.after(LockEvent::Existing(Ok(existing)));
            let next = check.after(LockEvent::Process { running, now });
            let holds = running && now <= existing.created_at + 600;
            &&& check == (LockStep::<Seq<char>>::CheckProcess { request, existing })
            &&& lock_holds(existing, running, now) <==> holds
            &&& holds ==> next == LockStep::<Seq<char>>::Done(Ok(existing))
            &&& !holds ==> next == (LockStep::<Seq<char>>::RemoveStale { request })
            &&& !holds ==> next.after(LockEvent::Removed) == (LockStep::<Seq<char>>::Stamp {
                request,
            })
        }),
{
}

/// Where no lock can be read a new one is made, written and created in the file that was asked
/// for; and a failure is told of as what it is.
pub proof fn free_lock_is_taken(
    request: LockRequest<Seq<char>>,
    session_id: Seq<char>,
    now: u64,
    pid: u32,
    text: Seq<char>,
    m: Seq<char>,
    e: ConfigError<Seq<char>>,
)
    ensures
        ({
            let dir = LockStep::EnsureDir { request };
            let read = dir.after(LockEvent::Dir(Ok(())));
            let stamp = read.after(LockEvent::Existing(Err(e)));
            let serialize = stamp.after(LockEvent::Stamp { session_id, now, pid });
            let create = serialize.after(LockEvent::Serialized(Ok(text)));
            let last = create.after(LockEvent::Created(Ok(())));
            &&& read == (LockStep::<Seq<char>>::ReadLock { request })
            &&& dir.after(LockEvent::Dir(Err(e))) == LockStep::<Seq<char>>::Done(Err(e))
            &&& stamp == (LockStep::<Seq<char>>::Stamp { request })
            &&& serialize is Serialize
            &&& create matches LockStep::Create { path, text: t, lock } && path == request.path
                && t == text && lock.session_id == session_id && lock.server_url
                == request.server_url && lock.callback_port == request.callback_port
                && lock.created_at == now && lock.pid == pid && last == LockStep::<
                Seq<char>,
            >::Done(Ok(lock))
            &&& serialize.after(LockEvent::Serialized(Err(m))) == LockStep::<Seq<char>>::Done(
                Err(ConfigError::Json(m)),
            )
            &&& create.after(LockEvent::Created(Err(m))) == LockStep::<Seq<char>>::Done(
                Err(ConfigError::Io(m)),
            )
        }),
{
}

/// What happens to a step of taking a lock that the event is not about: nothing.
pub proof fn lock_waits_for_its_answers(step: LockStep<Seq<char>>, event: LockEvent<Seq<char>>)
    ensures
        step.after(event) != step ==> match step {
            LockStep::EnsureDir { .. } => event is Dir,
            LockStep::ReadLock { .. } => event is Existing,
            LockStep::CheckProcess { .. } => event is Process,
            LockStep::RemoveStale { .. } => event is Removed,
            LockStep::Stamp { .. } => event is Stamp,
            LockStep::Serialize { .. } => event is Serialized,
            LockStep::Create { .. } => event is Created,
            LockStep::Done(_) => false,
        },
{
}

/// A time of a lock is asked to be one that ten minutes can be added to, where its process runs;
/// nothing else is asked of an event.
pub proof fn lock_times_are_in_reach(
    step: LockStep<Seq<char>>,
    event: LockEvent<Seq<char>>,
    request: LockRequest<Seq<char>>,
    existing: LockFile<Seq<char>>,
    running: bool,
    now: u64,
)
    ensures
        !(step is CheckProcess && event is Process) ==> step.accepts(event),
        (LockStep::CheckProcess { request, existing }).accepts(LockEvent::Process { running, now })
            <==> !running || existing.created_at + 600 <= u64::MAX,
{
}

/// What happens to a step on a file that the event is not about: nothing.
pub proof fn files_wait_for_their_answers<T>(
    load: LoadStep<T, Seq<char>>,
    loaded: LoadEvent<T, Seq<char>>,
    dir: DirStep<Seq<char>>,
    found: DirEvent<Seq<char>>,
    save: SaveStep<Seq<char>>,
    saved: SaveEvent<Seq<char>>,
    remove: RemoveStep<Seq<char>>,
    removed: RemoveEvent<Seq<char>>,
)
    ensures
        load.after(loaded) != load ==> match load {
            LoadStep::Probe { .. } => loaded is Exists,
            LoadStep::Read { .. } => loaded is Contents,
            LoadStep::Parse { .. } => loaded is Parsed,
            LoadStep::Done(_) => false,
        },
        dir.after(found) != dir ==> match dir {
            DirStep::Probe { .. } => found is Exists,
            DirStep::Create { .. } => found is Created,
            DirStep::Done(_) => false,
        },
        save.after(saved) != save ==> match save {
            SaveStep::EnsureDir { .. } => saved is Dir,
            SaveStep::Serialize { .. } => saved is Serialized,
            SaveStep::Write { .. } => saved is Written,
            SaveStep::Done(_) => false,
        },
        remove.after(removed) != remove ==> match remove {
            RemoveStep::Probe { .. } => removed is Exists,
            RemoveStep::Remove { .. } => removed is Removed,
            RemoveStep::Done(_) => false,
        },
{
}

} // verus!
