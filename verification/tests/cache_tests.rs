//! Tests of the TTL cache under a simulated clock.

use devhub_core::cache::{get_cache_ttl, CacheEntry, StringCache};
use devhub_core::config::CacheConfig;

#[test]
fn cache_hit_then_expiry() {
    let mut c = StringCache::new();
    c.set_at("k".to_string(), "v".to_string(), 1, 1000);
    // Immediately after the store the value is there.
    assert_eq!(c.get_at("k", 1000), Some("v".to_string()));
    // Still alive at the expiry instant itself.
    assert_eq!(c.get_at("k", 1001), Some("v".to_string()));
    // Beyond one second the entry is dead and swept.
    assert_eq!(c.get_at("k", 1002), None);
    // And it stays gone even at an earlier instant afterwards.
    assert_eq!(c.get_at("k", 1000), None);
}

#[test]
fn disabled_cache_stores_nothing() {
    let mut c = StringCache::new();
    c.set_enabled(false);
    c.set_at("k".to_string(), "v".to_string(), 100, 0);
    assert_eq!(c.get_at("k", 0), None);
    // The entry was never stored, not merely hidden: re-enabling finds
    // nothing either.
    c.set_enabled(true);
    assert_eq!(c.get_at("k", 0), None);
}

#[test]
fn disabled_cache_misses_stored_entries() {
    let mut c = StringCache::new();
    c.set_at("k".to_string(), "v".to_string(), 100, 0);
    c.set_enabled(false);
    assert_eq!(c.get_at("k", 0), None);
}

#[test]
fn set_overwrites() {
    let mut c = StringCache::new();
    c.set_at("k".to_string(), "first".to_string(), 10, 0);
    c.set_at("k".to_string(), "second".to_string(), 10, 0);
    assert_eq!(c.get_at("k", 5), Some("second".to_string()));
}

#[test]
fn invalidate_and_clear() {
    let mut c = StringCache::new();
    c.set_at("a".to_string(), "1".to_string(), 100, 0);
    c.set_at("b".to_string(), "2".to_string(), 100, 0);
    c.invalidate("a");
    assert_eq!(c.get_at("a", 0), None);
    assert_eq!(c.get_at("b", 0), Some("2".to_string()));
    c.clear();
    assert_eq!(c.get_at("b", 0), None);
}

#[test]
fn cache_entry_expiry() {
    let e = CacheEntry::new("v".to_string(), 5, 100);
    assert_eq!(e.expires_at, 105);
    assert!(!e.is_expired(100));
    assert!(!e.is_expired(105));
    assert!(e.is_expired(106));
}

#[test]
fn cache_entry_expiry_saturates() {
    let e = CacheEntry::new("v".to_string(), u64::MAX, 10);
    assert_eq!(e.expires_at, u64::MAX);
}

#[test]
fn ttl_per_purpose() {
    let cfg = CacheConfig::default();
    assert_eq!(get_cache_ttl("azure_resources", &cfg), 300);
    assert_eq!(get_cache_ttl("github_deployments", &cfg), 600);
    assert_eq!(get_cache_ttl("anything_else", &cfg), 300);
}

#[test]
fn wall_clock_entry_points_run() {
    let mut c = StringCache::new();
    c.set("k".to_string(), "v".to_string(), 3600);
    assert_eq!(c.get("k"), Some("v".to_string()));
    c.set_enabled(false);
    assert_eq!(c.get("k"), None);
}
