use rmcp_proxy::config::LockFile;
use rmcp_proxy::outside::Clock;
use rmcp_proxy::text::{
    chars_of, decimal, has_prefix, has_text, hex, same_text, string_of, trim_prefixes,
    trim_suffixes,
};
use rmcp_proxy::utils::{
    hash_server_url, is_lock_expired, is_lock_expired_at, new_session_id, now_nanos, now_seconds,
    to_nanos, to_seconds, DEFAULT_CALLBACK_PORT, DEFAULT_COORDINATION_TIMEOUT, HTTP_CONNECT_TIMEOUT,
    HTTP_POOL_IDLE_TIMEOUT, HTTP_TCP_KEEPALIVE, HTTP_TIMEOUT, LOCK_EXPIRY_SECS, OIDC_CACHE_TTL,
    SSE_KEEP_ALIVE,
};
use std::collections::hash_map::DefaultHasher;
use std::hash::{Hash, Hasher};

fn lock_created_at(created_at: u64) -> LockFile {
    LockFile {
        session_id: "s".to_string(),
        server_url: "https://example.com".to_string(),
        callback_port: 9292,
        created_at,
        pid: 1,
    }
}

#[test]
fn limits_have_their_values() {
    assert_eq!(DEFAULT_CALLBACK_PORT, 9292);
    assert_eq!(DEFAULT_COORDINATION_TIMEOUT, 30);
    assert_eq!(HTTP_TIMEOUT, 30);
    assert_eq!(HTTP_CONNECT_TIMEOUT, 10);
    assert_eq!(HTTP_POOL_IDLE_TIMEOUT, 90);
    assert_eq!(HTTP_TCP_KEEPALIVE, 30);
    assert_eq!(OIDC_CACHE_TTL, 3600);
    assert_eq!(LOCK_EXPIRY_SECS, 600);
    assert_eq!(SSE_KEEP_ALIVE, 15);
}

#[test]
fn url_hash_is_that_of_the_default_hasher() {
    for url in ["https://example.com/sse", "", "http://localhost:8080/mcp", "\u{e9}"] {
        let mut hasher = DefaultHasher::new();
        url.hash(&mut hasher);
        assert_eq!(hash_server_url(url), format!("{:x}", hasher.finish()));
    }
}

#[test]
fn url_hash_is_a_plain_name() {
    let hash = hash_server_url("https://example.com/some/path?query=1");
    assert!(!hash.is_empty() && hash.len() <= 16);
    assert!(hash.chars().all(|c| matches!(c, '0'..='9' | 'a'..='f')));
}

#[test]
fn different_urls_have_different_hashes() {
    assert_ne!(hash_server_url("https://a.example"), hash_server_url("https://b.example"));
}

#[test]
fn lock_expires_after_ten_minutes() {
    let lock = lock_created_at(1_000);
    assert!(!is_lock_expired_at(&lock, 0));
    assert!(!is_lock_expired_at(&lock, 1_000));
    assert!(!is_lock_expired_at(&lock, 1_600));
    assert!(is_lock_expired_at(&lock, 1_601));
    assert!(is_lock_expired_at(&lock, u64::MAX));
}

#[test]
fn lock_expiry_goes_by_the_clock() {
    assert!(is_lock_expired(&lock_created_at(0), &mut Clock::new()));
    assert!(!is_lock_expired(&lock_created_at(now_seconds(&mut Clock::new())), &mut Clock::new()));
    assert!(!is_lock_expired(&lock_created_at(u64::MAX - 600), &mut Clock::new()));
}

#[test]
fn seconds_are_whole_and_not_negative() {
    assert_eq!(to_seconds(-1), 0);
    assert_eq!(to_seconds(0), 0);
    assert_eq!(to_seconds(999_999_999), 0);
    assert_eq!(to_seconds(1_000_000_000), 1);
    assert_eq!(to_seconds(1_700_000_000_123_456_789), 1_700_000_000);
}

#[test]
fn times_before_the_epoch_are_negative() {
    assert_eq!(to_nanos(Ok(5)), 5);
    assert_eq!(to_nanos(Err(5)), -5);
    assert_eq!(to_nanos(Err(0)), 0);
}

#[test]
fn clock_is_past_the_epoch() {
    assert!(now_seconds(&mut Clock::new()) > 1_600_000_000);
    let before = to_seconds(now_nanos(&mut Clock::new()));
    let after = now_seconds(&mut Clock::new());
    assert!(before <= after);
}

#[test]
fn session_ids_are_random_uuids() {
    let a = new_session_id();
    let b = new_session_id();
    assert_ne!(a, b);
    for id in [a, b] {
        assert_eq!(id.len(), 36);
        let parts: Vec<&str> = id.split('-').collect();
        assert_eq!(parts.iter().map(|p| p.len()).collect::<Vec<_>>(), vec![8, 4, 4, 4, 12]);
        assert!(parts[2].starts_with('4'));
        assert!(matches!(parts[3].as_bytes()[0], b'8' | b'9' | b'a' | b'b'));
    }
}

#[test]
fn numbers_are_printed() {
    assert_eq!(decimal(0), "0");
    assert_eq!(decimal(10), "10");
    assert_eq!(decimal(u64::MAX), "18446744073709551615");
    assert_eq!(hex(0), "0");
    assert_eq!(hex(255), "ff");
    assert_eq!(hex(0x1a2b), "1a2b");
    assert_eq!(hex(u64::MAX), "ffffffffffffffff");
}

#[test]
fn texts_are_compared_and_searched() {
    assert!(same_text("", ""));
    assert!(same_text("h\u{e9}", "h\u{e9}"));
    assert!(!same_text("a", "ab"));
    assert!(!same_text("ab", "ac"));
    assert!(has_prefix("https://x", "http"));
    assert!(!has_prefix("ht", "http"));
    assert!(has_prefix("x", ""));
    assert!(has_text("http://x/sse/y", "/sse"));
    assert!(has_text("/sse", "/sse"));
    assert!(!has_text("/ss", "/sse"));
    assert!(has_text("abc", ""));
}

#[test]
fn copies_of_a_suffix_or_prefix_go() {
    assert_eq!(trim_suffixes("http://x/sse", "/sse"), "http://x");
    assert_eq!(trim_suffixes("http://x/sse/sse", "/sse"), "http://x");
    assert_eq!(trim_suffixes("/sse", "/sse"), "");
    assert_eq!(trim_suffixes("http://x/sse/", "/sse"), "http://x/sse/");
    assert_eq!(trim_suffixes("abc", ""), "abc");
    assert_eq!(trim_prefixes("0o600", "0o"), "600");
    assert_eq!(trim_prefixes("0o0o7", "0o"), "7");
    assert_eq!(trim_prefixes("600", "0o"), "600");
    assert_eq!(trim_prefixes("abc", ""), "abc");
}

#[test]
fn characters_make_a_text() {
    let v = chars_of("h\u{e9}llo");
    assert_eq!(v, vec!['h', '\u{e9}', 'l', 'l', 'o']);
    assert_eq!(string_of(&v, 1, 3), "\u{e9}l");
    assert_eq!(string_of(&v, 5, 5), "");
}
