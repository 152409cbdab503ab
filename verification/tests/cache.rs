use serde_json::Value;
use userinfo_enrichment::cache::{
    build_entry, cache_expiry, cache_unwrap, cache_unwrap_at, cache_wrap, check_expiry_fits,
    entry_attributes, evictions,
};
use userinfo_enrichment::clock::{now_secs, read_clock, whole_secs};

fn json(text: &str) -> Value {
    serde_json::from_str(text).unwrap()
}

fn nested(depth: usize) -> Value {
    let mut value = Value::Array(Vec::new());
    for _ in 1..depth {
        value = Value::Array(vec![value]);
    }
    value
}

fn keys(names: &[&str]) -> Vec<String> {
    names.iter().map(|name| name.to_string()).collect()
}

#[test]
fn entry_is_a_document_with_expiry_and_value() {
    let raw = cache_wrap(&json(r#"{"mcp_access_level":"full"}"#), 1700000000);
    assert_eq!(raw, r#"{"exp":1700000000,"v":{"mcp_access_level":"full"}}"#);
}

#[test]
fn entry_is_built_from_its_parts() {
    assert_eq!(
        build_entry(&json("[true]"), u64::MAX),
        json(r#"{"exp":18446744073709551615,"v":[true]}"#)
    );
}

#[test]
fn entry_reads_back_until_it_expires() {
    let attrs = json(r#"{"a":"x","b":[1,-2,true,null],"c":{"d":0.5},"e":"\u0000\"\\  "}"#);
    let raw = cache_wrap(&attrs, 100);
    assert_eq!(cache_unwrap_at(&raw, 0), Some(attrs.clone()));
    assert_eq!(cache_unwrap_at(&raw, 99), Some(attrs));
    assert_eq!(cache_unwrap_at(&raw, 100), None);
    assert_eq!(cache_unwrap_at(&raw, u64::MAX), None);
}

#[test]
fn extreme_numbers_read_back() {
    let attrs = json(r#"{"max":18446744073709551615,"min":-9223372036854775808}"#);
    let raw = cache_wrap(&attrs, u64::MAX);
    assert_eq!(cache_unwrap_at(&raw, u64::MAX - 1), Some(attrs));
}

#[test]
fn nesting_is_kept_up_to_the_limit_of_the_reader() {
    let deepest = nested(126);
    assert_eq!(cache_unwrap_at(&cache_wrap(&deepest, 10), 9), Some(deepest));
    assert_eq!(cache_unwrap_at(&cache_wrap(&nested(127), 10), 9), None);
}

#[test]
fn entry_without_expiry_is_expired() {
    assert_eq!(cache_unwrap_at(&cache_wrap(&json("{}"), 0), 0), None);
    assert_eq!(cache_unwrap_at(r#"{"v":{}}"#, 0), None);
    assert_eq!(cache_unwrap_at(r#"{"exp":"100","v":{}}"#, 0), None);
    assert_eq!(cache_unwrap_at(r#"{"exp":-1,"v":{}}"#, 0), None);
    assert_eq!(cache_unwrap_at(r#"{"exp":100.5,"v":{}}"#, 0), None);
}

#[test]
fn unreadable_entry_is_a_miss() {
    assert_eq!(cache_unwrap_at("", 0), None);
    assert_eq!(cache_unwrap_at("{", 0), None);
    assert_eq!(cache_unwrap_at("[100]", 0), None);
    assert_eq!(cache_unwrap_at(r#"{"exp":100}"#, 0), None);
}

#[test]
fn entry_yields_its_attributes() {
    let entry = json(r#"{"exp":5,"v":"anything"}"#);
    assert_eq!(entry_attributes(&entry, 4), Some(json("\"anything\"")));
    assert_eq!(entry_attributes(&entry, 5), None);
    assert_eq!(entry_attributes(&json("7"), 0), None);
}

#[test]
fn readings_are_cut_to_whole_seconds() {
    assert_eq!(whole_secs(Some((1000, 999_999_999))), 1000);
    assert_eq!(whole_secs(Some((0, 1))), 0);
    assert_eq!(whole_secs(Some((u64::MAX, 0))), u64::MAX);
    assert_eq!(whole_secs(None), 0);
    assert!(matches!(read_clock(), Some((secs, nanos)) if secs > 1_600_000_000 && nanos < 1_000_000_000));
}

#[test]
fn different_entries_have_different_texts() {
    let a = json(r#"{"a":1}"#);
    let b = json(r#"{"a":"1"}"#);
    assert_ne!(cache_wrap(&a, 5), cache_wrap(&b, 5));
    assert_ne!(cache_wrap(&a, 5), cache_wrap(&a, 6));
    assert_eq!(cache_wrap(&a, 0), r#"{"exp":0,"v":{"a":1}}"#);
    assert_ne!(cache_wrap(&json("1"), 5), cache_wrap(&json("1.0"), 5));
    assert_ne!(cache_wrap(&json("0.0"), 5), cache_wrap(&json("-0.0"), 5));
    assert_ne!(
        cache_wrap(&json("10000000000000000000"), 5),
        cache_wrap(&json("1e19"), 5)
    );
    let fraction = 1.2008989991919147e-23_f64;
    let neighbour = f64::from_bits(fraction.to_bits() + 1);
    assert_ne!(
        cache_wrap(&Value::from(fraction), 5),
        cache_wrap(&Value::from(neighbour), 5)
    );
    assert_ne!(cache_wrap(&nested(200), 5), cache_wrap(&nested(201), 5));
}

#[test]
fn entry_is_held_against_the_clock() {
    let now = now_secs();
    assert!(now > 1_600_000_000);
    let attrs = json(r#"{"k":"v"}"#);
    assert_eq!(
        cache_unwrap(&cache_wrap(&attrs, now + 3600)),
        Some(attrs.clone())
    );
    assert_eq!(cache_unwrap(&cache_wrap(&attrs, now - 1)), None);
}

#[test]
fn ttl_is_the_lesser_of_configuration_and_token() {
    assert_eq!(cache_expiry(5, Some(10_000), 1_000), Some(1_300));
    assert_eq!(cache_expiry(5, Some(1_100), 1_000), Some(1_100));
    assert_eq!(cache_expiry(5, Some(1_300), 1_000), Some(1_300));
    assert_eq!(cache_expiry(5, None, 1_000), Some(1_300));
}

#[test]
fn no_configured_ttl_leaves_it_to_the_token() {
    assert_eq!(cache_expiry(0, Some(10_000), 1_000), Some(10_000));
    assert_eq!(cache_expiry(0, None, 1_000), None);
}

#[test]
fn expired_token_is_not_cached() {
    assert_eq!(cache_expiry(5, Some(1_000), 1_000), None);
    assert_eq!(cache_expiry(5, Some(1), 1_000), None);
    assert_eq!(cache_expiry(0, Some(1_000), 1_000), None);
}

#[test]
fn expiry_has_to_fit() {
    assert!(check_expiry_fits(60, None, 1_700_000_000));
    assert!(check_expiry_fits(0, None, u64::MAX));
    assert!(!check_expiry_fits(1, None, u64::MAX - 59));
    assert!(check_expiry_fits(1, None, u64::MAX - 60));
    assert!(check_expiry_fits(1, Some(5), u64::MAX));
    assert!(!check_expiry_fits(u64::MAX / 60 + 1, Some(5), 0));
}

#[test]
fn nothing_is_evicted_while_there_is_room() {
    let none: Vec<String> = Vec::new();
    assert_eq!(evictions(&keys(&[]), &"k".to_string(), 1), none);
    assert_eq!(evictions(&keys(&["a", "b"]), &"k".to_string(), 3), none);
    assert_eq!(evictions(&keys(&["a", "k"]), &"k".to_string(), 2), none);
}

#[test]
fn a_full_cache_makes_room_for_one_entry() {
    assert_eq!(
        evictions(&keys(&["a", "b", "c"]), &"k".to_string(), 3),
        keys(&["a"])
    );
    assert_eq!(
        evictions(&keys(&["k", "a", "b", "c"]), &"k".to_string(), 2),
        keys(&["a", "b"])
    );
    assert_eq!(
        evictions(&keys(&["a"]), &"k".to_string(), 1),
        keys(&["a"])
    );
}
