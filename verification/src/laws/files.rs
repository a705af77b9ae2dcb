//! What holds of the files of the proxy and of the locks among them.
use std::collections::hash_map::DefaultHasher;
use vstd::prelude::*;
use vstd::std_specs::hash::*;
use vstd::string::*;

use crate::config::{auth_file_name, lock_file_name, registration_file_name};
use crate::config::{lock_holds, AuthConfig, ConfigError, ConfigManager, LockFile};
use crate::config::{LoadEvent, LoadStep, LockEvent, LockStep, SaveEvent, SaveStep};
use crate::config::{DirEvent, DirStep, RemoveEvent, RemoveStep};
use crate::laws::events::lemma_events_stay;
use crate::outside::{is_hex_digit, text_hash_writes};
use crate::text::{digit_char, hex_text};
use crate::utils::{lock_expired, url_hash};

verus! {

// ---------------------------------------------------------------- names

/// The tokens, the lock and the registration of servers lie in different files,
/// whatever their hashes.
pub proof fn files_differ(files: ConfigManager<Seq<char>>, a: Seq<char>, b: Seq<char>)
    ensures
        files.auth_config_path(a) != files.lock_path(b),
        files.auth_config_path(a) != files.registration_path(b),
        files.lock_path(a) != files.registration_path(b),
{
    reveal_strlit("auth-");
    reveal_strlit(".json");
    reveal_strlit(".lock");
    reveal_strlit("client-registration-");
    let (tokens, lock) = (auth_file_name(a), lock_file_name(b));
    assert(tokens[tokens.len() - 1] == 'n');
    assert(lock[lock.len() - 1] == 'k');
    let registration = registration_file_name(b);
    assert(tokens[0] == 'a');
    assert(lock_file_name(a)[0] == 'a');
    assert(registration[0] == 'c');
}

/// A text between two fixed ones is determined by the whole.
proof fn lemma_between(before: Seq<char>, a: Seq<char>, b: Seq<char>, after: Seq<char>)
    requires
        before + a + after == before + b + after,
    ensures
        a == b,
{
    let x = before + a + after;
    assert(x.len() == before.len() + a.len() + after.len());
    assert(a =~= x.subrange(before.len() as int, (before.len() + a.len()) as int));
    assert(b =~= x.subrange(before.len() as int, (before.len() + a.len()) as int));
}

/// Servers with different hashes share no file.
pub proof fn servers_share_no_file(files: ConfigManager<Seq<char>>, a: Seq<char>, b: Seq<char>)
    requires
        a != b,
    ensures
        files.auth_config_path(a) != files.auth_config_path(b),
        files.lock_path(a) != files.lock_path(b),
        files.registration_path(a) != files.registration_path(b),
{
    if auth_file_name(a) == auth_file_name(b) {
        lemma_between("auth-"@, a, b, ".json"@);
    }
    if lock_file_name(a) == lock_file_name(b) {
        lemma_between("auth-"@, a, b, ".lock"@);
    }
    if registration_file_name(a) == registration_file_name(b) {
        lemma_between("client-registration-"@, a, b, ".json"@);
    }
}

/// A numeral consists of digits.
proof fn lemma_hex_digits(n: nat)
    ensures
        forall|i: int| 0 <= i < hex_text(n).len() ==> is_hex_digit(#[trigger] hex_text(n)[i]),
        hex_text(n).len() > 0,
    decreases n,
{
    if n >= 16 {
        lemma_hex_digits(n / 16);
        assert(hex_text(n) == hex_text(n / 16).push(digit_char((n % 16) as int)));
    }
}

/// A numeral below a power of sixteen has no more digits than the exponent.
proof fn lemma_hex_length(n: nat, digits: nat)
    requires
        digits > 0,
        n < vstd::arithmetic::power::pow(16, digits),
    ensures
        hex_text(n).len() <= digits,
    decreases digits,
{
    reveal(vstd::arithmetic::power::pow);
    if n >= 16 {
        assert(vstd::arithmetic::power::pow(16, 1) == 16) by {
            reveal_with_fuel(vstd::arithmetic::power::pow, 2);
        }
        assert(digits > 1);
        let less = (digits - 1) as nat;
        assert(vstd::arithmetic::power::pow(16, digits) == 16 * vstd::arithmetic::power::pow(
            16,
            less,
        ));
        lemma_hex_length(n / 16, less);
        assert(hex_text(n) == hex_text(n / 16).push(digit_char((n % 16) as int)));
    }
}

/// The hash of a URL is a plain name: one to sixteen lower-case hexadecimal digits.
pub proof fn hash_is_plain(server_url: Seq<char>)
    ensures
        1 <= url_hash(server_url).len() <= 16,
        forall|i: int|
            0 <= i < url_hash(server_url).len() ==> is_hex_digit(
                #[trigger] url_hash(server_url)[i],
            ),
{
    let n = DefaultHasher::spec_finish(text_hash_writes(server_url)) as nat;
    lemma_hex_digits(n);
    assert(vstd::arithmetic::power::pow(16, 16) == 18_446_744_073_709_551_616) by {
        reveal_with_fuel(vstd::arithmetic::power::pow, 17);
    }
    lemma_hex_length(n, 16);
}

// ---------------------------------------------------------------- tokens on disk

/// Keeping tokens makes the file that reading them looks at hold their JSON text, and
/// reading that text gives the tokens that it stands for.
pub proof fn kept_tokens_are_read(
    files: ConfigManager<Seq<char>>,
    hash: Seq<char>,
    config: AuthConfig<Seq<char>>,
    text: Seq<char>,
)
    ensures
        ({
            let path = files.auth_config_path(hash);
            let write = files.saving_auth_config(hash, config).after(SaveEvent::Dir(Ok(()))).after(
                SaveEvent::Serialized(Ok(text)),
            );
            let read = files.loading_auth_config(hash).after(LoadEvent::Exists(true));
            &&& write == (SaveStep::Write { path, text })
            &&& write.after(SaveEvent::Written(Ok(()))) == SaveStep::<Seq<char>>::Done(Ok(()))
            &&& read == (LoadStep::<AuthConfig<Seq<char>>, Seq<char>>::Read { path })
            &&& read.after(LoadEvent::Contents(Ok(text))).after(LoadEvent::Parsed(Ok(config)))
                == LoadStep::<AuthConfig<Seq<char>>, Seq<char>>::Done(Ok(config))
        }),
{
}

/// A run of keeping tokens.
pub open spec fn save_run(step: SaveStep<Seq<char>>, events: Seq<SaveEvent<Seq<char>>>) -> SaveStep<
    Seq<char>,
>
    decreases events.len(),
{
    if events.len() == 0 {
        step
    } else {
        save_run(step, events.drop_last()).after(events.last())
    }
}

/// However keeping tokens goes, no file is written but that of the server's tokens, and
/// nothing but the text that the tokens were turned into.
pub proof fn only_the_tokens_are_written(
    files: ConfigManager<Seq<char>>,
    hash: Seq<char>,
    config: AuthConfig<Seq<char>>,
    events: Seq<SaveEvent<Seq<char>>>,
)
    ensures
        match save_run(files.saving_auth_config(hash, config), events) {
            SaveStep::EnsureDir { path, config: c } => path == files.auth_config_path(hash) && c
                == config,
            SaveStep::Serialize { path, config: c } => path == files.auth_config_path(hash) && c
                == config,
            SaveStep::Write { path, text } => path == files.auth_config_path(hash) && events.contains(
                SaveEvent::Serialized(Ok(text)),
            ),
            SaveStep::Done(r) => r is Ok ==> events.contains(SaveEvent::Written(Ok(()))),
        },
    decreases events.len(),
{
    if events.len() > 0 {
        let before = events.drop_last();
        only_the_tokens_are_written(files, hash, config, before);
        lemma_events_stay(events);
        if let SaveEvent::Written(Ok(unit)) = events.last() {
            assert(unit == ());
        }
    }
}

/// What is done about files once it is over stays so.
pub proof fn file_work_ends<T>(
    read: Result<T, ConfigError<Seq<char>>>,
    read_event: LoadEvent<T, Seq<char>>,
    done: Result<(), ConfigError<Seq<char>>>,
    dir_event: DirEvent<Seq<char>>,
    save_event: SaveEvent<Seq<char>>,
    remove_event: RemoveEvent<Seq<char>>,
)
    ensures
        LoadStep::Done(read).after(read_event) == LoadStep::<T, Seq<char>>::Done(read),
        DirStep::Done(done).after(dir_event) == DirStep::Done(done),
        SaveStep::Done(done).after(save_event) == SaveStep::Done(done),
        RemoveStep::Done(done).after(remove_event) == RemoveStep::Done(done),
{
}

// ---------------------------------------------------------------- locks

/// A lock that expired stays expired.
pub proof fn expired_stays_expired(created_at: u64, now: u64, later: u64)
    requires
        now <= later,
        lock_expired(created_at, now),
    ensures
        lock_expired(created_at, later),
{
}

/// A lock holds for exactly ten minutes while its process runs.
pub proof fn lock_holds_ten_minutes<S>(lock: LockFile<S>, now: u64)
    ensures
        lock_holds(lock, true, now) <==> now <= lock.created_at + 600,
        !lock_holds(lock, false, now),
{
}

/// A run of taking a lock.
pub open spec fn lock_run(step: LockStep<Seq<char>>, events: Seq<LockEvent<Seq<char>>>) -> LockStep<
    Seq<char>,
>
    decreases events.len(),
{
    if events.len() == 0 {
        step
    } else {
        lock_run(step, events.drop_last()).after(events.last())
    }
}

/// Whether some event is the stamp of this lock by the process that takes it.
pub open spec fn was_stamped(
    events: Seq<LockEvent<Seq<char>>>,
    lock: LockFile<Seq<char>>,
) -> bool {
    events.contains(
        LockEvent::Stamp { session_id: lock.session_id, now: lock.created_at, pid: lock.pid },
    )
}

/// Whether this lock was read, and held when it was looked at.
pub open spec fn was_held(
    events: Seq<LockEvent<Seq<char>>>,
    lock: LockFile<Seq<char>>,
) -> bool {
    events.contains(LockEvent::Existing(Ok(lock))) && exists|running: bool, now: u64|
        lock_holds(lock, running, now) && #[trigger] events.contains(
            LockEvent::Process { running, now },
        )
}

/// However taking a lock goes: the file that is created is the lock of the server and
/// holds a new lock for the request; and the lock that comes out is either one that was
/// there and held, or a new one for the request whose file was created.
pub proof fn lock_is_new_or_held(
    files: ConfigManager<Seq<char>>,
    hash: Seq<char>,
    server_url: Seq<char>,
    callback_port: u16,
    events: Seq<LockEvent<Seq<char>>>,
)
    ensures
        match lock_run(files.taking_lock(hash, server_url, callback_port), events) {
            LockStep::Create { path, text, lock } => {
                &&& path == files.lock_path(hash)
                &&& lock.server_url == server_url
                &&& lock.callback_port == callback_port
                &&& was_stamped(events, lock)
                &&& events.contains(LockEvent::Serialized(Ok(text)))
            },
            LockStep::Done(Ok(lock)) => {
                ||| was_held(events, lock)
                ||| (lock.server_url == server_url && lock.callback_port == callback_port
                    && was_stamped(events, lock) && events.contains(LockEvent::Created(Ok(()))))
            },
            _ => true,
        },
{
    lemma_lock_run(files, hash, server_url, callback_port, events);
}

proof fn lemma_lock_run(
    files: ConfigManager<Seq<char>>,
    hash: Seq<char>,
    server_url: Seq<char>,
    callback_port: u16,
    events: Seq<LockEvent<Seq<char>>>,
)
    ensures
        ({
            let path = files.lock_path(hash);
            match lock_run(files.taking_lock(hash, server_url, callback_port), events) {
                LockStep::EnsureDir { request } => request.path == path && request.server_url
                    == server_url && request.callback_port == callback_port,
                LockStep::ReadLock { request } => request.path == path && request.server_url
                    == server_url && request.callback_port == callback_port,
                LockStep::CheckProcess { request, existing } => request.path == path
                    && request.server_url == server_url && request.callback_port == callback_port
                    && events.contains(LockEvent::Existing(Ok(existing))),
                LockStep::RemoveStale { request } => request.path == path && request.server_url
                    == server_url && request.callback_port == callback_port,
                LockStep::Stamp { request } => request.path == path && request.server_url
                    == server_url && request.callback_port == callback_port,
                LockStep::Serialize { path: at, lock } => at == path && lock.server_url
                    == server_url && lock.callback_port == callback_port && was_stamped(
                    events,
                    lock,
                ),
                LockStep::Create { path: at, text, lock } => at == path && lock.server_url
                    == server_url && lock.callback_port == callback_port && was_stamped(
                    events,
                    lock,
                ) && events.contains(LockEvent::Serialized(Ok(text))),
                LockStep::Done(Ok(lock)) => was_held(events, lock) || (lock.server_url == server_url
                    && lock.callback_port == callback_port && was_stamped(events, lock)
                    && events.contains(LockEvent::Created(Ok(())))),
                LockStep::Done(Err(_)) => true,
            }
        }),
    decreases events.len(),
{
    if events.len() > 0 {
        let before = events.drop_last();
        lemma_lock_run(files, hash, server_url, callback_port, before);
        lemma_events_stay(events);
        let step = lock_run(files.taking_lock(hash, server_url, callback_port), before);
        match (step, events.last()) {
            (LockStep::CheckProcess { request, existing }, LockEvent::Process { running, now }) => {
                assert(events.contains(LockEvent::Process { running, now }));
            },
            (LockStep::Stamp { request }, LockEvent::Stamp { session_id, now, pid }) => {
                assert(was_stamped(events, request.stamped(session_id, now, pid)));
            },
            (LockStep::Done(Ok(lock)), _) => {
                if was_held(before, lock) {
                    let (running, now) = choose|running: bool, now: u64|
                        lock_holds(lock, running, now) && #[trigger] before.contains(
                            LockEvent::Process { running, now },
                        );
                    assert(events.contains(LockEvent::Process { running, now }));
                }
            },
            (LockStep::Create { path, text, lock }, LockEvent::Created(Ok(unit))) => {
                assert(unit == ());
            },
            _ => {},
        }
    }
}

/// A lock that holds is neither removed nor replaced: nothing is done but to return it.
pub proof fn held_lock_is_left_alone(
    files: ConfigManager<Seq<char>>,
    hash: Seq<char>,
    server_url: Seq<char>,
    callback_port: u16,
    lock: LockFile<Seq<char>>,
    now: u64,
    rest: Seq<LockEvent<Seq<char>>>,
)
    requires
        lock_holds(lock, true, now),
    ensures
        lock_run(
            files.taking_lock(hash, server_url, callback_port).after(LockEvent::Dir(Ok(()))).after(
                LockEvent::Existing(Ok(lock)),
            ).after(LockEvent::Process { running: true, now }),
            rest,
        ) == LockStep::<Seq<char>>::Done(Ok(lock)),
    decreases rest.len(),
{
    if rest.len() > 0 {
        held_lock_is_left_alone(
            files,
            hash,
            server_url,
            callback_port,
            lock,
            now,
            rest.drop_last(),
        );
    }
}

/// Releasing a lock touches the file that taking and reading it use.
pub proof fn one_lock_file(
    files: ConfigManager<Seq<char>>,
    hash: Seq<char>,
    server_url: Seq<char>,
    callback_port: u16,
)
    ensures
        files.taking_lock(hash, server_url, callback_port) matches LockStep::EnsureDir { request }
            && request.path == files.lock_path(hash),
        files.reading_lock(hash) == (LoadStep::<LockFile<Seq<char>>, Seq<char>>::Probe {
            path: files.lock_path(hash),
        }),
        files.releasing_lock(hash) == (RemoveStep::<Seq<char>>::Probe {
            path: files.lock_path(hash),
        }),
        files.releasing_lock(hash).after(RemoveEvent::Exists(true)) == (RemoveStep::<
            Seq<char>,
        >::Remove { path: files.lock_path(hash) }),
{
}

} // verus!
