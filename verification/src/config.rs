//! The configuration of the policy, its defaults, and what it is held to when it is applied.
use crate::text;
use vstd::prelude::*;
use vstd::string::*;

verus! {

pub const DEFAULT_USERINFO_PATH: &'static str = "/services/oauth2/userinfo";

pub const DEFAULT_TIMEOUT_MS: i64 = 5000;

pub const DEFAULT_CACHE_ENABLED: bool = true;

pub const DEFAULT_CACHE_TTL_MINUTES: i64 = 5;

pub const DEFAULT_MAX_CACHE_ENTRIES: i64 = 1000;

pub const DEFAULT_STATUS_PROPERTY: &'static str = "mcp_enrichment_status";

pub const DEFAULT_PROPERTIES_KEY: &'static str = "custom_attributes";

pub const MIN_TIMEOUT_MS: i64 = 1000;

pub const MAX_TIMEOUT_MS: i64 = 30000;

pub const MAX_CACHE_TTL_MINUTES: i64 = 60;

/// The configuration as it is written down. A field that is left out takes its default.
pub struct Config {
    /// Path of the UserInfo endpoint.
    pub userinfo_path: Option<String>,
    /// Property that the pair-set is written under.
    pub properties_key: Option<String>,
    /// Where not empty, the only attributes that are relayed.
    pub attribute_allow_list: Option<Vec<String>>,
    /// How long the UserInfo endpoint may take to answer, from 1000 to 30000 milliseconds.
    pub timeout_ms: Option<i64>,
    /// Whether results are cached per token.
    pub cache_enabled: Option<bool>,
    /// How long a result is cached at most, up to 60 minutes; 0 leaves the limit to the token.
    pub cache_ttl_minutes: Option<i64>,
    /// How many tokens are cached at most.
    pub max_cache_entries: Option<i64>,
    /// Property that the status is written under.
    pub status_property: Option<String>,
}

/// What a configuration means: every setting, defaults filled in.
pub struct Settings {
    pub userinfo_path: Seq<char>,
    pub properties_key: Seq<char>,
    /// Empty where all attributes are relayed.
    pub attribute_allow_list: Seq<Seq<char>>,
    pub timeout_ms: i64,
    pub cache_enabled: bool,
    pub cache_ttl_minutes: i64,
    pub max_cache_entries: i64,
    pub status_property: Seq<char>,
}

impl Settings {
    /// The settings that the policy can be applied with.
    pub open spec fn valid(self) -> bool {
        &&& 0 <= self.cache_ttl_minutes <= MAX_CACHE_TTL_MINUTES
        &&& self.max_cache_entries >= 1
        &&& MIN_TIMEOUT_MS <= self.timeout_ms <= MAX_TIMEOUT_MS
    }

    /// What becomes of the settings when they are applied: the first limit that they break.
    pub open spec fn verdict(self) -> Result<(), ConfigError> {
        if self.cache_ttl_minutes < 0 {
            Err(ConfigError::NegativeTtl(self.cache_ttl_minutes))
        } else if self.max_cache_entries < 1 {
            Err(ConfigError::NoCacheEntries(self.max_cache_entries))
        } else if self.cache_ttl_minutes > MAX_CACHE_TTL_MINUTES {
            Err(ConfigError::LongTtl(self.cache_ttl_minutes))
        } else if self.timeout_ms < MIN_TIMEOUT_MS || self.timeout_ms > MAX_TIMEOUT_MS {
            Err(ConfigError::TimeoutOutOfRange(self.timeout_ms))
        } else {
            Ok(())
        }
    }
}

/// The texts of a list of strings.
pub open spec fn texts(list: Seq<String>) -> Seq<Seq<char>> {
    list.map_values(|s: String| s@)
}

impl View for Config {
    type V = Settings;

    open spec fn view(&self) -> Settings {
        Settings {
            userinfo_path: match self.userinfo_path {
                Some(path) => path@,
                None => DEFAULT_USERINFO_PATH@,
            },
            properties_key: match self.properties_key {
                Some(key) => key@,
                None => DEFAULT_PROPERTIES_KEY@,
            },
            attribute_allow_list: match self.attribute_allow_list {
                Some(list) => texts(list@),
                None => Seq::empty(),
            },
            timeout_ms: match self.timeout_ms {
                Some(timeout_ms) => timeout_ms,
                None => DEFAULT_TIMEOUT_MS,
            },
            cache_enabled: match self.cache_enabled {
                Some(enabled) => enabled,
                None => DEFAULT_CACHE_ENABLED,
            },
            cache_ttl_minutes: match self.cache_ttl_minutes {
                Some(minutes) => minutes,
                None => DEFAULT_CACHE_TTL_MINUTES,
            },
            max_cache_entries: match self.max_cache_entries {
                Some(entries) => entries,
                None => DEFAULT_MAX_CACHE_ENTRIES,
            },
            status_property: match self.status_property {
                Some(property) => property@,
                None => DEFAULT_STATUS_PROPERTY@,
            },
        }
    }
}

impl Config {
    pub fn userinfo_path(&self) -> (path: &str)
        ensures
            path@ == self@.userinfo_path,
    {
        match &self.userinfo_path {
            Some(path) => path.as_str(),
            None => DEFAULT_USERINFO_PATH,
        }
    }

    pub fn properties_key(&self) -> (key: &str)
        ensures
            key@ == self@.properties_key,
    {
        match &self.properties_key {
            Some(key) => key.as_str(),
            None => DEFAULT_PROPERTIES_KEY,
        }
    }

    pub fn status_property(&self) -> (property: &str)
        ensures
            property@ == self@.status_property,
    {
        match &self.status_property {
            Some(property) => property.as_str(),
            None => DEFAULT_STATUS_PROPERTY,
        }
    }

    pub fn timeout_ms(&self) -> (timeout_ms: i64)
        ensures
            timeout_ms == self@.timeout_ms,
    {
        match self.timeout_ms {
            Some(timeout_ms) => timeout_ms,
            None => DEFAULT_TIMEOUT_MS,
        }
    }

    pub fn cache_enabled(&self) -> (enabled: bool)
        ensures
            enabled == self@.cache_enabled,
    {
        match self.cache_enabled {
            Some(enabled) => enabled,
            None => DEFAULT_CACHE_ENABLED,
        }
    }

    pub fn cache_ttl_minutes(&self) -> (minutes: i64)
        ensures
            minutes == self@.cache_ttl_minutes,
    {
        match self.cache_ttl_minutes {
            Some(minutes) => minutes,
            None => DEFAULT_CACHE_TTL_MINUTES,
        }
    }

    pub fn max_cache_entries(&self) -> (entries: i64)
        ensures
            entries == self@.max_cache_entries,
    {
        match self.max_cache_entries {
            Some(entries) => entries,
            None => DEFAULT_MAX_CACHE_ENTRIES,
        }
    }
}

/// Why a configuration is turned down.
pub enum ConfigError {
    /// The bytes are no configuration: the bytes as text, and what the reader says.
    Unparseable { raw: String, cause: String },
    /// `cacheTtlMinutes` is negative.
    NegativeTtl(i64),
    /// `maxCacheEntries` leaves no room for an entry.
    NoCacheEntries(i64),
    /// `cacheTtlMinutes` is above its range.
    LongTtl(i64),
    /// `timeoutMs` is outside its range.
    TimeoutOutOfRange(i64),
}

impl ConfigError {
    /// What the operator is told.
    pub open spec fn told(self) -> Seq<char> {
        match self {
            ConfigError::Unparseable { raw, cause } =>
                "salesforce-userinfo-claims-enrichment: failed to parse configuration '"@ + raw@
                    + "'. Cause: "@ + cause@,
            ConfigError::NegativeTtl(minutes) =>
                "salesforce-userinfo-claims-enrichment: cacheTtlMinutes must be >= 0, got "@
                    + text::decimal(minutes as int),
            ConfigError::NoCacheEntries(entries) =>
                "salesforce-userinfo-claims-enrichment: maxCacheEntries must be >= 1, got "@
                    + text::decimal(entries as int),
            ConfigError::LongTtl(minutes) =>
                "salesforce-userinfo-claims-enrichment: cacheTtlMinutes must be <= 60, got "@
                    + text::decimal(minutes as int),
            ConfigError::TimeoutOutOfRange(timeout_ms) =>
                "salesforce-userinfo-claims-enrichment: timeoutMs must be between 1000 and 30000, got "@
                    + text::decimal(timeout_ms as int),
        }
    }

    /// The message for the operator.
    pub fn message(&self) -> (message: String)
        ensures
            message@ == self.told(),
    {
        match self {
            ConfigError::Unparseable { raw, cause } => {
                let mut message =
                    "salesforce-userinfo-claims-enrichment: failed to parse configuration '".to_owned();
                message.append(raw.as_str());
                message.append("'. Cause: ");
                message.append(cause.as_str());
                message
            },
            ConfigError::NegativeTtl(minutes) => {
                let mut message =
                    "salesforce-userinfo-claims-enrichment: cacheTtlMinutes must be >= 0, got ".to_owned();
                message.append(text::to_decimal(*minutes).as_str());
                message
            },
            ConfigError::NoCacheEntries(entries) => {
                let mut message =
                    "salesforce-userinfo-claims-enrichment: maxCacheEntries must be >= 1, got ".to_owned();
                message.append(text::to_decimal(*entries).as_str());
                message
            },
            ConfigError::LongTtl(minutes) => {
                let mut message =
                    "salesforce-userinfo-claims-enrichment: cacheTtlMinutes must be <= 60, got ".to_owned();
                message.append(text::to_decimal(*minutes).as_str());
                message
            },
            ConfigError::TimeoutOutOfRange(timeout_ms) => {
                let mut message =
                    "salesforce-userinfo-claims-enrichment: timeoutMs must be between 1000 and 30000, got ".to_owned();
                message.append(text::to_decimal(*timeout_ms).as_str());
                message
            },
        }
    }
}

/// Holds a configuration to its limits when it is applied, so that a bad one fails there and not
/// at a later request. The first limit that is broken is reported: a negative TTL, a cache without
/// room, a TTL above its range, a timeout outside its range.
pub fn configure(config: &Config) -> (result: Result<(), ConfigError>)
    ensures
        result is Ok <==> config@.valid(),
        result == config@.verdict(),
{
    let minutes: i64 = config.cache_ttl_minutes();
    if minutes < 0 {
        return Err(ConfigError::NegativeTtl(minutes));
    }
    let entries: i64 = config.max_cache_entries();
    if entries < 1 {
        return Err(ConfigError::NoCacheEntries(entries));
    }
    if minutes > MAX_CACHE_TTL_MINUTES {
        return Err(ConfigError::LongTtl(minutes));
    }
    let timeout_ms: i64 = config.timeout_ms();
    if timeout_ms < MIN_TIMEOUT_MS || timeout_ms > MAX_TIMEOUT_MS {
        return Err(ConfigError::TimeoutOutOfRange(timeout_ms));
    }
    Ok(())
}

} // verus!
