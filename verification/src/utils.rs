//! Limits, the clock and the name of a server's files.
use std::collections::hash_map::DefaultHasher;
use std::hash::Hasher;
use vstd::prelude::*;
use vstd::std_specs::hash::*;

use crate::config::LockFile;
use crate::outside::{hash_text, random_uuid};
use crate::outside::{is_uuid_text, text_hash_writes, Clock, DURATION_NANOS_LIMIT};
use crate::text::{hex, hex_text};

verus! {

/// The port on which the OAuth callback is awaited.
pub const DEFAULT_CALLBACK_PORT: u16 = 9292;

/// Half the time, in seconds, for which another party's authentication is awaited.
pub const DEFAULT_COORDINATION_TIMEOUT: u64 = 30;

/// The limits of the HTTP client, in seconds.
pub const HTTP_TIMEOUT: u64 = 30;

pub const HTTP_CONNECT_TIMEOUT: u64 = 10;

pub const HTTP_POOL_IDLE_TIMEOUT: u64 = 90;

pub const HTTP_TCP_KEEPALIVE: u64 = 30;

/// How long a discovered OpenID configuration is used, in seconds.
pub const OIDC_CACHE_TTL: u64 = 3600;

/// How long a lock holds, in seconds.
pub const LOCK_EXPIRY_SECS: u64 = 600;

/// The interval of the keep-alive messages of a server, in seconds.
pub const SSE_KEEP_ALIVE: u64 = 15;

/// The hash of a server's URL, by which its files are named.
pub open spec fn url_hash(server_url: Seq<char>) -> Seq<char> {
    hex_text(DefaultHasher::spec_finish(text_hash_writes(server_url)) as nat)
}

/// The hash of a server's URL, by which its files are named.
pub fn hash_server_url(server_url: &str) -> (r: String)
    ensures
        r@ == url_hash(server_url@),
{
    let mut hasher = DefaultHasher::new();
    hash_text(server_url, &mut hasher);
    assert(hasher@ =~= text_hash_writes(server_url@));
    hex(hasher.finish())
}

/// The whole seconds of a time after the Unix epoch; none before it.
pub open spec fn seconds_of(nanos: i128) -> u64 {
    if nanos < 0 {
        0
    } else {
        (nanos / 1_000_000_000) as u64
    }
}

/// The whole seconds of a time after the Unix epoch.
pub fn to_seconds(nanos: i128) -> (r: u64)
    requires
        nanos < DURATION_NANOS_LIMIT,
    ensures
        r == seconds_of(nanos),
        nanos >= 0 ==> r * 1_000_000_000 <= nanos < (r + 1) * 1_000_000_000,
{
    if nanos < 0 {
        0
    } else {
        (nanos / 1_000_000_000) as u64
    }
}

/// A time in nanoseconds from the Unix epoch, negative before it, of which its distance
/// from the epoch is given.
pub open spec fn signed_nanos(distance: Result<u128, u128>) -> int {
    match distance {
        Ok(after) => after as int,
        Err(before) => -(before as int),
    }
}

/// A time in nanoseconds from the Unix epoch, of which its distance from the epoch is
/// given.
pub fn to_nanos(distance: Result<u128, u128>) -> (r: i128)
    requires
        match distance {
            Ok(after) => after < DURATION_NANOS_LIMIT,
            Err(before) => before < DURATION_NANOS_LIMIT,
        },
    ensures
        r == signed_nanos(distance),
{
    match distance {
        Ok(after) => after as i128,
        Err(before) => -(before as i128),
    }
}

impl Clock {
    /// Whether the clock was read exactly once since it was as before.
    pub open spec fn read_once(&self, before: Clock) -> bool {
        self.log().len() > 0 && self.log().drop_last() == before.log()
    }

    /// The last reading, in nanoseconds from the Unix epoch, negative before it.
    pub open spec fn nanos(&self) -> i128 {
        signed_nanos(self.log().last()) as i128
    }

    /// The last reading, in whole seconds from the Unix epoch.
    pub open spec fn seconds(&self) -> u64 {
        seconds_of(self.nanos())
    }
}

/// The nanoseconds from the Unix epoch to now, negative where the clock stands before it.
pub fn now_nanos(clock: &mut Clock) -> (r: i128)
    ensures
        final(clock).read_once(*old(clock)),
        r == final(clock).nanos(),
        -DURATION_NANOS_LIMIT < r < DURATION_NANOS_LIMIT,
{
    let distance = clock.read();
    assert(clock.log().drop_last() =~= old(clock).log());
    to_nanos(distance)
}

/// The whole seconds from the Unix epoch to now.
pub fn now_seconds(clock: &mut Clock) -> (r: u64)
    ensures
        final(clock).read_once(*old(clock)),
        r == final(clock).seconds(),
{
    let nanos = now_nanos(clock);
    to_seconds(nanos)
}

/// An identifier that nothing else carries.
pub fn new_session_id() -> (r: String)
    ensures
        is_uuid_text(r@),
{
    random_uuid()
}

/// Whether a lock that was taken at `created_at` no longer holds at `now`.
pub open spec fn lock_expired(created_at: u64, now: u64) -> bool {
    now > created_at + LOCK_EXPIRY_SECS
}

/// Whether a lock no longer holds at `now`.
pub fn is_lock_expired_at<S>(lock: &LockFile<S>, now: u64) -> (r: bool)
    requires
        lock.created_at + LOCK_EXPIRY_SECS <= u64::MAX,
    ensures
        r == lock_expired(lock.created_at, now),
{
    now > lock.created_at + LOCK_EXPIRY_SECS
}

/// Whether a lock no longer holds.
pub fn is_lock_expired(lock: &LockFile, clock: &mut Clock) -> (r: bool)
    requires
        lock.created_at + LOCK_EXPIRY_SECS <= u64::MAX,
    ensures
        final(clock).read_once(*old(clock)),
        r == lock_expired(lock.created_at, final(clock).seconds()),
{
    let now = now_seconds(clock);
    is_lock_expired_at(lock, now)
}

} // verus!
