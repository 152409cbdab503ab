use userinfo_enrichment::config::{configure, Config, ConfigError};

fn empty() -> Config {
    Config {
        userinfo_path: None,
        properties_key: None,
        attribute_allow_list: None,
        timeout_ms: None,
        cache_enabled: None,
        cache_ttl_minutes: None,
        max_cache_entries: None,
        status_property: None,
    }
}

#[test]
fn fields_left_out_take_their_defaults() {
    let config = empty();
    assert_eq!(config.userinfo_path(), "/services/oauth2/userinfo");
    assert_eq!(config.properties_key(), "custom_attributes");
    assert_eq!(config.timeout_ms(), 5000);
    assert!(config.cache_enabled());
    assert_eq!(config.cache_ttl_minutes(), 5);
    assert_eq!(config.max_cache_entries(), 1000);
    assert_eq!(config.status_property(), "mcp_enrichment_status");
    assert!(configure(&config).is_ok());
}

#[test]
fn fields_given_stand() {
    let config = Config {
        userinfo_path: Some("/me".to_string()),
        properties_key: Some("sf_attrs".to_string()),
        attribute_allow_list: None,
        timeout_ms: Some(10000),
        cache_enabled: Some(false),
        cache_ttl_minutes: Some(0),
        max_cache_entries: Some(1),
        status_property: Some("state".to_string()),
    };
    assert_eq!(config.userinfo_path(), "/me");
    assert_eq!(config.properties_key(), "sf_attrs");
    assert_eq!(config.timeout_ms(), 10000);
    assert!(!config.cache_enabled());
    assert_eq!(config.cache_ttl_minutes(), 0);
    assert_eq!(config.max_cache_entries(), 1);
    assert_eq!(config.status_property(), "state");
    assert!(configure(&config).is_ok());
}

#[test]
fn negative_ttl_is_turned_down() {
    let config = Config {
        cache_ttl_minutes: Some(-1),
        max_cache_entries: Some(0),
        ..empty()
    };
    let error = configure(&config).err().unwrap();
    assert!(matches!(error, ConfigError::NegativeTtl(-1)));
    assert_eq!(
        error.message(),
        "salesforce-userinfo-claims-enrichment: cacheTtlMinutes must be >= 0, got -1"
    );
}

#[test]
fn cache_without_room_is_turned_down() {
    let config = Config {
        max_cache_entries: Some(0),
        ..empty()
    };
    let error = configure(&config).err().unwrap();
    assert!(matches!(error, ConfigError::NoCacheEntries(0)));
    assert_eq!(
        error.message(),
        "salesforce-userinfo-claims-enrichment: maxCacheEntries must be >= 1, got 0"
    );
}

#[test]
fn long_ttl_is_turned_down() {
    for minutes in [61, i64::MAX] {
        let config = Config {
            cache_ttl_minutes: Some(minutes),
            timeout_ms: Some(0),
            ..empty()
        };
        let error = configure(&config).err().unwrap();
        assert!(matches!(error, ConfigError::LongTtl(m) if m == minutes));
    }
    assert_eq!(
        ConfigError::LongTtl(61).message(),
        "salesforce-userinfo-claims-enrichment: cacheTtlMinutes must be <= 60, got 61"
    );
}

#[test]
fn timeout_outside_its_range_is_turned_down() {
    for timeout_ms in [i64::MIN, -1, 0, 999, 30001, i64::MAX] {
        let config = Config {
            timeout_ms: Some(timeout_ms),
            ..empty()
        };
        let error = configure(&config).err().unwrap();
        assert!(matches!(error, ConfigError::TimeoutOutOfRange(t) if t == timeout_ms));
    }
    assert_eq!(
        ConfigError::TimeoutOutOfRange(999).message(),
        "salesforce-userinfo-claims-enrichment: timeoutMs must be between 1000 and 30000, got 999"
    );
}

#[test]
fn limits_themselves_are_accepted() {
    for (minutes, timeout_ms) in [(0, 1000), (60, 30000)] {
        let config = Config {
            cache_ttl_minutes: Some(minutes),
            timeout_ms: Some(timeout_ms),
            max_cache_entries: Some(1),
            ..empty()
        };
        assert!(configure(&config).is_ok());
    }
}

#[test]
fn cache_without_room_is_reported_before_the_ranges() {
    let config = Config {
        cache_ttl_minutes: Some(61),
        max_cache_entries: Some(-3),
        timeout_ms: Some(1),
        ..empty()
    };
    let error = configure(&config).err().unwrap();
    assert!(matches!(error, ConfigError::NoCacheEntries(-3)));
}

#[test]
fn unreadable_configuration_is_quoted() {
    let error = ConfigError::Unparseable {
        raw: "{".to_string(),
        cause: "EOF".to_string(),
    };
    assert_eq!(
        error.message(),
        "salesforce-userinfo-claims-enrichment: failed to parse configuration '{'. Cause: EOF"
    );
}
