//! Cache entries: how attributes are kept with an expiry, how long, and how many of them.
//!
//! The store that holds the entries keeps a value for ever. An entry is therefore a document
//! `{"exp": seconds, "v": attributes}`, and its `exp` is held against the clock at every read.
use crate::clock;
use crate::config;
use crate::json;
use crate::json::Json;
use serde_json::Value;
use vstd::prelude::*;
use vstd::string::*;

verus! {

/// The document of a cache entry.
pub open spec fn entry_json(attrs: Json, expiry: u64) -> Json {
    Json::Object(json::no_entries().insert("exp"@, Json::Int(expiry as int)).insert("v"@, attrs))
}

/// When an entry expires. One that does not say has expired.
pub open spec fn entry_expiry(entry: Json) -> u64 {
    match json::member(entry, "exp"@) {
        Some(exp) => match json::unsigned(exp) {
            Some(secs) => secs,
            None => 0,
        },
        None => 0,
    }
}

/// The attributes that an entry yields at the time `now`.
pub open spec fn live_attributes(entry: Json, now: u64) -> Option<Json> {
    if now < entry_expiry(entry) {
        json::member(entry, "v"@)
    } else {
        None
    }
}

/// The attributes that the text of an entry yields at the time `now`.
pub open spec fn cached(raw: Seq<char>, now: u64) -> Option<Json> {
    match json::json_of_text(raw) {
        Some(entry) => live_attributes(entry, now),
        None => None,
    }
}

/// Attributes that the text of an entry gives back unchanged: those that leave the entry within
/// the nesting that a reader of JSON takes, and in which each fraction reads back.
pub open spec fn keepable(attrs: Json) -> bool {
    json::exact(attrs, (json::MAX_NESTING - 1) as nat)
}

/// The text is that of the entry for `attrs` and `expiry`, and of no other document. Where the
/// entry can be read back it is what the text reads as; and whatever the text reads as, it has the
/// expiry.
pub open spec fn wraps(raw: Seq<char>, attrs: Json, expiry: u64) -> bool {
    &&& json::is_held(entry_json(attrs, expiry))
    &&& raw == json::json_text(entry_json(attrs, expiry))
    &&& json::text_only_of(raw, entry_json(attrs, expiry))
    &&& keepable(attrs) ==> json::json_of_text(raw) == Some(entry_json(attrs, expiry))
    &&& json::json_of_text(raw) is Some ==> entry_expiry(json::json_of_text(raw)->0) == expiry
}

/// From `expiry` on the text yields nothing.
pub open spec fn expires_at(raw: Seq<char>, expiry: u64) -> bool {
    forall|now: u64| now >= expiry ==> #[trigger] cached(raw, now) is None
}

/// At any time before `expiry` the text yields `attrs`.
pub open spec fn yields_until(raw: Seq<char>, attrs: Json, expiry: u64) -> bool {
    forall|now: u64| now < expiry ==> #[trigger] cached(raw, now) == Some(attrs)
}

proof fn lemma_entry_exact(attrs: Json, expiry: u64)
    requires
        keepable(attrs),
    ensures
        json::exact(entry_json(attrs, expiry), json::MAX_NESTING as nat),
{
    let entries = entry_json(attrs, expiry)->Object_0;
    assert forall|key: Seq<char>| entries.contains_key(key) implies json::nested(
        #[trigger] entries[key],
        (json::MAX_NESTING - 1) as nat,
    ) && json::steady(entries[key]) by {
        assert(entries[key] == attrs || entries[key] == Json::Int(expiry as int));
    }
}

/// What an entry has under its two keys.
pub proof fn lemma_entry_members(attrs: Json, expiry: u64)
    ensures
        json::member(entry_json(attrs, expiry), "exp"@) == Some(Json::Int(expiry as int)),
        json::member(entry_json(attrs, expiry), "v"@) == Some(attrs),
{
    reveal_strlit("exp");
    reveal_strlit("v");
    assert("exp"@.len() != "v"@.len());
}

/// The document of a cache entry.
pub fn build_entry(attrs: &Value, expiry_secs: u64) -> (entry: Value)
    ensures
        json::json_view(entry) == entry_json(json::json_view(*attrs), expiry_secs),
{
    let mut object = serde_json::Map::new();
    object.insert("exp".to_owned(), json::number_value(expiry_secs));
    object.insert("v".to_owned(), attrs.clone());
    json::object_value(object)
}

/// The text of an entry yields nothing from its expiry on, and until then the attributes, where
/// they can be read back.
pub proof fn lemma_wraps(raw: Seq<char>, attrs: Json, expiry: u64)
    requires
        wraps(raw, attrs, expiry),
    ensures
        expires_at(raw, expiry),
        keepable(attrs) ==> yields_until(raw, attrs, expiry),
{
    lemma_entry_members(attrs, expiry);
}

/// Wrap the attributes with an explicit expiry timestamp.
pub fn cache_wrap(attrs: &Value, expiry_secs: u64) -> (raw: String)
    ensures
        wraps(raw@, json::json_view(*attrs), expiry_secs),
        expires_at(raw@, expiry_secs),
        keepable(json::json_view(*attrs)) ==> yields_until(
            raw@,
            json::json_view(*attrs),
            expiry_secs,
        ),
{
    let entry = build_entry(attrs, expiry_secs);
    proof {
        let document = json::json_view(*attrs);
        lemma_entry_members(document, expiry_secs);
        if keepable(document) {
            lemma_entry_exact(document, expiry_secs);
        }
    }
    match json::print_json(&entry) {
        Ok(raw) => {
            proof {
                lemma_wraps(raw@, json::json_view(*attrs), expiry_secs);
            }
            raw
        },
        Err(_) => "{}".to_owned(),
    }
}

/// The attributes of an entry that has been read, `None` if it has expired by `now`.
pub fn entry_attributes(entry: &Value, now: u64) -> (attrs: Option<Value>)
    ensures
        json::option_view(attrs) == live_attributes(json::json_view(*entry), now),
{
    let exp: u64 = match json::get_member(entry, "exp") {
        Some(exp) => match exp.as_u64() {
            Some(secs) => secs,
            None => 0,
        },
        None => 0,
    };
    if exp == 0 || now >= exp {
        return None;
    }
    match json::get_member(entry, "v") {
        Some(attrs) => Some(attrs.clone()),
        None => None,
    }
}

/// Read a cached entry at the time `now`, returning `None` if it is unreadable or expired.
pub fn cache_unwrap_at(raw: &str, now: u64) -> (attrs: Option<Value>)
    ensures
        json::option_view(attrs) == cached(raw@, now),
{
    match json::parse_json(raw) {
        Ok(entry) => entry_attributes(&entry, now),
        Err(_) => None,
    }
}

/// Read a cached entry, returning `None` if it is unreadable or expired by now.
pub fn cache_unwrap(raw: &str) -> (attrs: Option<Value>)
    ensures
        exists|now: u64|
            call_ensures(clock::now_secs, (), now) && json::option_view(attrs)
                == #[trigger] cached(raw@, now),
{
    let now: u64 = clock::now_secs();
    let attrs = cache_unwrap_at(raw, now);
    assert(json::option_view(attrs) == cached(raw@, now));
    attrs
}

/// How long a token is valid from the time `now` on.
pub open spec fn remaining_lifetime(token_exp: u64, now: u64) -> nat {
    if token_exp > now {
        (token_exp - now) as nat
    } else {
        0
    }
}

/// How many seconds a result is cached from the time `now` on: the configured time, and no longer
/// than the token is valid, where the token says so. No configured time leaves it to the token.
pub open spec fn effective_ttl(ttl_minutes: nat, token_exp: Option<u64>, now: u64) -> nat {
    let configured = ttl_minutes * 60;
    match token_exp {
        Some(exp) => {
            let remaining = remaining_lifetime(exp, now);
            if configured == 0 || remaining < configured {
                remaining
            } else {
                configured
            }
        },
        None => configured,
    }
}

/// When a result that is cached at the time `now` expires; `None` where it is not cached.
pub open spec fn expiry_at(ttl_minutes: nat, token_exp: Option<u64>, now: u64) -> Option<u64> {
    let ttl = effective_ttl(ttl_minutes, token_exp, now);
    if ttl > 0 {
        Some((now + ttl) as u64)
    } else {
        None
    }
}

/// The configured time, and the expiry that follows from it, fit in 64 bits.
pub open spec fn expiry_fits(ttl_minutes: nat, token_exp: Option<u64>, now: u64) -> bool {
    ttl_minutes * 60 <= u64::MAX && now + effective_ttl(ttl_minutes, token_exp, now) <= u64::MAX
}

/// Whether the configured time, and the expiry that follows from it, fit in 64 bits.
pub fn check_expiry_fits(ttl_minutes: u64, token_exp: Option<u64>, now: u64) -> (fits: bool)
    ensures
        fits == expiry_fits(ttl_minutes as nat, token_exp, now),
{
    if ttl_minutes > u64::MAX / 60 {
        return false;
    }
    token_exp.is_some() || ttl_minutes * 60 <= u64::MAX - now
}

/// When a result that is cached at the time `now` expires; `None` where it is not cached.
pub fn cache_expiry(ttl_minutes: u64, token_exp: Option<u64>, now: u64) -> (expiry: Option<u64>)
    requires
        expiry_fits(ttl_minutes as nat, token_exp, now),
    ensures
        expiry == expiry_at(ttl_minutes as nat, token_exp, now),
{
    let configured: u64 = ttl_minutes * 60;
    let ttl: u64 = match token_exp {
        Some(exp) => {
            let remaining: u64 = if exp > now {
                exp - now
            } else {
                0
            };
            if configured == 0 || remaining < configured {
                remaining
            } else {
                configured
            }
        },
        None => configured,
    };
    if ttl > 0 {
        Some(now + ttl)
    } else {
        None
    }
}

/// Tells the other keys from `key`.
pub open spec fn differs_from(key: Seq<char>) -> spec_fn(Seq<char>) -> bool {
    |other: Seq<char>| other != key
}

/// The keys of a store besides `key`, as they are listed.
pub open spec fn other_keys(keys: Seq<Seq<char>>, key: Seq<char>) -> Seq<Seq<char>> {
    keys.filter(differs_from(key))
}

/// How many of `others` entries have to go so that they and one more are at most `max`.
pub open spec fn excess(others: nat, max: int) -> nat {
    if others + 1 > max {
        (others + 1 - max) as nat
    } else {
        0
    }
}

/// The keys that go before `key` is stored in a store with these keys, so that it holds at most
/// `max` entries.
pub open spec fn evicted(keys: Seq<Seq<char>>, key: Seq<char>, max: int) -> Seq<Seq<char>> {
    let others = other_keys(keys, key);
    others.take(excess(others.len(), max) as int)
}

/// The keys to delete before `key` is stored: as many as leave at most `max` entries, the first
/// listed first, none where there is room.
pub fn evictions(keys: &Vec<String>, key: &String, max: u64) -> (result: Vec<String>)
    requires
        max >= 1,
    ensures
        config::texts(result@) == evicted(config::texts(keys@), key@, max as int),
{
    let ghost all = config::texts(keys@);
    let mut others: Vec<String> = Vec::new();
    let mut i: usize = 0;
    assert(config::texts(others@) =~= all.take(0).filter(differs_from(key@))) by {
        reveal(Seq::filter);
    }
    while i < keys.len()
        invariant
            i <= keys.len(),
            all == config::texts(keys@),
            config::texts(others@) == all.take(i as int).filter(differs_from(key@)),
        decreases keys.len() - i,
    {
        let ghost before = others@;
        assert(all.take(i + 1).drop_last() =~= all.take(i as int));
        assert(all.take(i + 1).last() == keys@[i as int]@);
        if keys[i] != *key {
            others.push(keys[i].clone());
            assert(config::texts(others@) =~= config::texts(before).push(keys@[i as int]@));
        }
        assert(config::texts(others@) == all.take(i + 1).filter(differs_from(key@))) by {
            reveal(Seq::filter);
        }
        i += 1;
    }
    assert(all.take(keys.len() as int) =~= all);
    let count: u64 = others.len() as u64;
    if count >= max {
        others.truncate((count - max + 1) as usize);
    } else {
        others.truncate(0);
    }
    assert(config::texts(others@) =~= evicted(all, key@, max as int));
    others
}

} // verus!
