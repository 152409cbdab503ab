//! What each operation gives for what it is called with.
//!
//! The laws here speak of calls: of the values that go in and the values that come out, field by
//! field. `call_ensures(f, arguments, result)` says that `f` may return `result` for `arguments`.
use crate::attributes;
use crate::attributes::{Failure, Reply};
use crate::auth;
use crate::auth::Status;
use crate::cache;
use crate::clock;
use crate::config;
use crate::config::{Config, ConfigError};
use crate::json;
use crate::json::Json;
use crate::laws;
use crate::text;
use crate::token;
use pdk::authentication::AuthenticationData;
use pdk::jwt::model::JWTClaims;
use serde_json::Value;
use std::collections::hash_map::DefaultHasher;
use vstd::prelude::*;
use vstd::std_specs::hash::*;
use vstd::string::*;
use vstd::utf8::*;

verus! {

/// What a digit stands for.
pub open spec fn digit_value(c: char) -> Option<nat> {
    if '0' <= c && c <= '9' {
        Some((c as nat - '0' as nat) as nat)
    } else if 'a' <= c && c <= 'f' {
        Some((c as nat - 'a' as nat + 10) as nat)
    } else {
        None
    }
}

/// The number that a text is when it is read in the given base.
pub open spec fn number_read(text: Seq<char>, base: nat) -> Option<nat>
    decreases text.len(),
{
    if text.len() == 0 {
        Some(0)
    } else {
        match (number_read(text.drop_last(), base), digit_value(text.last())) {
            (Some(higher), Some(value)) => if value < base {
                Some(higher * base + value)
            } else {
                None
            },
            _ => None,
        }
    }
}

/// The text reads as the number, and has no digit too many.
pub open spec fn writes(text: Seq<char>, number: nat, base: nat) -> bool {
    &&& number_read(text, base) == Some(number)
    &&& text.len() > 0
    &&& text.len() > 1 ==> text[0] != '0'
}

proof fn lemma_digit(value: nat)
    requires
        value < 16,
    ensures
        digit_value(text::digit(value)) == Some(value),
        text::digit(value) == '0' <==> value == 0,
{
    assert(text::digit(value) as nat == if value < 10 {
        48 + value
    } else {
        87 + value
    });
}

proof fn lemma_digits(value: nat, base: nat)
    requires
        2 <= base <= 16,
    ensures
        writes(text::digits(value, base), value, base),
        text::digits(value, base)[0] == '0' <==> value == 0,
    decreases value,
{
    let written = text::digits(value, base);
    if value < base {
        lemma_digit(value);
        assert(written.drop_last() =~= Seq::<char>::empty());
        assert(number_read(written.drop_last(), base) == Some(0nat));
        assert(0 * base == 0) by (nonlinear_arith);
        assert(number_read(written, base) == Some(value));
    } else {
        vstd::arithmetic::div_mod::lemma_div_decreases(value as int, base as int);
        vstd::arithmetic::div_mod::lemma_mod_bound(value as int, base as int);
        vstd::arithmetic::div_mod::lemma_fundamental_div_mod(value as int, base as int);
        vstd::arithmetic::div_mod::lemma_div_non_zero(value as int, base as int);
        lemma_digits(value / base, base);
        lemma_digit(value % base);
        assert(written.drop_last() =~= text::digits(value / base, base));
        assert(written.last() == text::digit(value % base));
        assert(value / base * base + value % base == value) by (nonlinear_arith)
            requires
                value == base * (value / base) + value % base,
        ;
        assert(number_read(written, base) == Some(value));
    }
}

/// A number is written in hexadecimal so that it reads back.
pub proof fn law_hexadecimal(value: u64, text: String)
    requires
        call_ensures(text::to_hex, (value,), text),
    ensures
        writes(text@, value as nat, 16),
{
    lemma_digits(value as nat, 16);
}

/// A number is written in decimal so that it reads back, behind a minus where it is negative.
pub proof fn law_decimal(value: i64, text: String)
    requires
        call_ensures(text::to_decimal, (value,), text),
    ensures
        value >= 0 ==> writes(text@, value as nat, 10),
        value < 0 ==> text@[0] == '-' && writes(text@.skip(1), (-value) as nat, 10),
{
    if value >= 0 {
        lemma_digits(value as nat, 10);
    } else {
        lemma_digits((-value) as nat, 10);
        assert(text@.skip(1) =~= text::digits((-value) as nat, 10));
    }
}

/// The header starts with the seven characters of the bearer scheme, each in upper or lower case,
/// and goes on.
pub open spec fn names_bearer(header: Seq<char>) -> bool {
    &&& header.len() > 7
    &&& header[0] == 'b' || header[0] == 'B'
    &&& header[1] == 'e' || header[1] == 'E'
    &&& header[2] == 'a' || header[2] == 'A'
    &&& header[3] == 'r' || header[3] == 'R'
    &&& header[4] == 'e' || header[4] == 'E'
    &&& header[5] == 'r' || header[5] == 'R'
    &&& header[6] == ' '
}

/// The token stands in the header behind the scheme, from `from` to `to`, with nothing but white
/// space before and after it, and neither starts nor ends with any.
pub open spec fn stands_at(header: Seq<char>, token: Seq<char>, from: int, to: int) -> bool {
    &&& 7 <= from <= to <= header.len()
    &&& token == header.subrange(from, to)
    &&& forall|i: int|
        7 <= i < from || to <= i < header.len() ==> text::is_white_space(#[trigger] header[i])
    &&& from < to ==> !text::is_white_space(header[from]) && !text::is_white_space(header[to - 1])
}

/// The header brings the token; the empty one where it is no bearer header.
pub open spec fn brings_token(header: Seq<char>, token: Seq<char>) -> bool {
    if names_bearer(header) {
        exists|from: int, to: int| stands_at(header, token, from, to)
    } else {
        token.len() == 0
    }
}

/// The token that is found in a header is the one that the header brings.
pub proof fn lemma_brings_token(header: Seq<char>)
    ensures
        brings_token(header, token::bearer(header)),
{
    reveal_strlit("bearer ");
    reveal_strlit("BEARER ");
    if names_bearer(header) {
        assert(token::has_bearer_scheme(header));
        let rest = header.skip(7);
        text::lemma_trimmed(rest);
        let (from, to) = choose|from: int, to: int|
            0 <= from <= to <= rest.len() && text::trimmed(rest) == #[trigger] rest.subrange(
                from,
                to,
            ) && (forall|i: int|
                0 <= i < from || to <= i < rest.len() ==> text::is_white_space(
                    #[trigger] rest[i],
                ));
        assert(rest.subrange(from, to) =~= header.subrange(from + 7, to + 7));
        assert forall|i: int|
            7 <= i < from + 7 || to + 7 <= i < header.len() implies text::is_white_space(
            #[trigger] header[i],
        ) by {
            assert(header[i] == rest[i - 7]);
        }
        assert(stands_at(header, token::bearer(header), from + 7, to + 7));
    } else if token::has_bearer_scheme(header) {
        assert(header[0] == "bearer "@[0] || header[0] == "BEARER "@[0]);
        assert(header[1] == "bearer "@[1] || header[1] == "BEARER "@[1]);
        assert(header[2] == "bearer "@[2] || header[2] == "BEARER "@[2]);
        assert(header[3] == "bearer "@[3] || header[3] == "BEARER "@[3]);
        assert(header[4] == "bearer "@[4] || header[4] == "BEARER "@[4]);
        assert(header[5] == "bearer "@[5] || header[5] == "BEARER "@[5]);
        assert(header[6] == "bearer "@[6] || header[6] == "BEARER "@[6]);
    }
}

/// The token of a request is what its header has behind the bearer scheme, all of it but the white
/// space around it. Another header brings none.
pub proof fn law_bearer_token(header: &str, token: String)
    requires
        call_ensures(token::bearer_token, (header,), token),
    ensures
        brings_token(header@, token@),
{
    lemma_brings_token(header@);
}

/// A header brings one token only.
pub proof fn law_one_token_per_header(header: Seq<char>, a: Seq<char>, b: Seq<char>)
    requires
        brings_token(header, a),
        brings_token(header, b),
    ensures
        a == b,
{
    if names_bearer(header) {
        let (from, to) = choose|from: int, to: int| stands_at(header, a, from, to);
        let (start, end) = choose|from: int, to: int| stands_at(header, b, from, to);
        if from < to {
            assert(start <= from) by {
                if start > from {
                    assert(text::is_white_space(header[from]));
                }
            }
            assert(end >= to) by {
                if end < to {
                    assert(text::is_white_space(header[to - 1]));
                }
            }
        }
        if start < end {
            assert(from <= start) by {
                if from > start {
                    assert(text::is_white_space(header[start]));
                }
            }
            assert(to >= end) by {
                if to < end {
                    assert(text::is_white_space(header[end - 1]));
                }
            }
        }
        assert(a =~= b);
    } else {
        assert(a =~= b);
    }
}

/// The key is `sf-ui-` and the hash in hexadecimal.
pub open spec fn is_key(key: Seq<char>, hash: u64) -> bool {
    &&& key.len() > 6
    &&& key.take(6) == "sf-ui-"@
    &&& writes(key.skip(6), hash as nat, 16)
}

/// The key for a hash is one.
pub proof fn lemma_key(hash: u64)
    ensures
        is_key(token::hash_key(hash), hash),
{
    reveal_strlit("sf-ui-");
    lemma_digits(hash as nat, 16);
    assert(token::hash_key(hash).take(6) =~= "sf-ui-"@);
    assert(token::hash_key(hash).skip(6) =~= text::hex(hash as nat));
}

/// A hash is written into its key in full.
pub proof fn law_key_of_hash(hash: u64, key: String)
    requires
        call_ensures(token::key_of_hash, (hash,), key),
    ensures
        is_key(key@, hash),
{
    lemma_key(hash);
}

/// The key of a token is made of the hash of the whole token.
pub proof fn law_cache_key(token: &str, key: String)
    requires
        call_ensures(token::cache_key, (token,), key),
    ensures
        is_key(key@, DefaultHasher::spec_finish(token::hashed_str(Seq::empty(), token@))),
{
    lemma_key(token::token_hash(token@));
}

/// Two tokens have the same key exactly where the hashes of the two are the same.
pub proof fn law_tokens_share_a_key_with_their_hash(a: &str, b: &str, key_a: String, key_b: String)
    requires
        call_ensures(token::cache_key, (a,), key_a),
        call_ensures(token::cache_key, (b,), key_b),
    ensures
        key_a@ == key_b@ <==> DefaultHasher::spec_finish(token::hashed_str(Seq::empty(), a@))
            == DefaultHasher::spec_finish(token::hashed_str(Seq::empty(), b@)),
{
    law_cache_key(a, key_a);
    law_cache_key(b, key_b);
}

/// The claims have `exp` as this whole number of seconds.
pub open spec fn claims_expiry(claims: Map<Seq<char>, Json>, secs: u64) -> bool {
    claims.contains_key("exp"@) && claims["exp"@] == Json::Int(secs as int)
}

/// The expiry that claims state is their `exp`, where that is a whole number of seconds that fits;
/// otherwise they state none.
pub proof fn law_claimed_expiry(claims: JWTClaims, expiry: Option<u64>)
    requires
        call_ensures(token::claimed_expiry, (&claims,), expiry),
    ensures
        match expiry {
            Some(secs) => claims_expiry(token::claims_view(claims), secs),
            None => forall|secs: u64| !claims_expiry(token::claims_view(claims), secs),
        },
{
}

/// The expiry of a token is the `exp` of its claims. A token without claims, or with claims that
/// have no such number, does not say when it expires.
pub proof fn law_token_expiry(token: &str, expiry: Option<u64>)
    requires
        call_ensures(token::token_expiry, (token,), expiry),
    ensures
        match expiry {
            Some(secs) => token::jwt_claims(token@) is Some && claims_expiry(
                token::jwt_claims(token@)->0,
                secs,
            ),
            None => token::jwt_claims(token@) is Some ==> forall|secs: u64|
                !claims_expiry(token::jwt_claims(token@)->0, secs),
        },
{
}

/// The document is an entry: an object with the expiry under `exp` and the attributes under `v`.
pub open spec fn is_entry(entry: Json, attrs: Json, expiry: u64) -> bool {
    match entry {
        Json::Object(entries) => {
            &&& entries.contains_key("exp"@) && entries["exp"@] == Json::Int(expiry as int)
            &&& entries.contains_key("v"@) && entries["v"@] == attrs
        },
        _ => false,
    }
}

/// The text reads as an entry with these attributes and this expiry.
pub open spec fn reads_as_entry(raw: Seq<char>, attrs: Json, expiry: u64) -> bool {
    json::json_of_text(raw) is Some && is_entry(json::json_of_text(raw)->0, attrs, expiry)
}

/// What an entry yields at a time: its attributes before its expiry, and nothing from then on.
/// What is no entry yields nothing.
pub proof fn law_entry_attributes(entry: Value, now: u64, attrs: Option<Value>)
    requires
        call_ensures(cache::entry_attributes, (&entry, now), attrs),
    ensures
        match attrs {
            Some(value) => exists|expiry: u64|
                now < expiry && #[trigger] is_entry(
                    json::json_view(entry),
                    json::json_view(value),
                    expiry,
                ),
            None => forall|held: Json, expiry: u64| #[trigger]
                is_entry(json::json_view(entry), held, expiry) ==> expiry <= now,
        },
{
    let document = json::json_view(entry);
    if let Some(value) = attrs {
        let expiry = cache::entry_expiry(document);
        assert(is_entry(document, json::json_view(value), expiry));
    }
}

/// What the text of an entry yields at a time: the attributes before the expiry, and nothing from
/// then on. A text that is no entry yields nothing.
pub proof fn law_cache_unwrap_at(raw: &str, now: u64, attrs: Option<Value>)
    requires
        call_ensures(cache::cache_unwrap_at, (raw, now), attrs),
    ensures
        match attrs {
            Some(value) => exists|expiry: u64|
                now < expiry && #[trigger] reads_as_entry(raw@, json::json_view(value), expiry),
            None => forall|held: Json, expiry: u64| #[trigger]
                reads_as_entry(raw@, held, expiry) ==> expiry <= now,
        },
{
    if let Some(value) = attrs {
        let expiry = cache::entry_expiry(json::json_of_text(raw@)->0);
        assert(reads_as_entry(raw@, json::json_view(value), expiry));
    }
}

/// An entry is held against a reading that the system clock gave: it yields its attributes where
/// the seconds of that reading are before its expiry, and nothing otherwise.
pub proof fn law_cache_unwrap(raw: &str, attrs: Option<Value>)
    requires
        call_ensures(cache::cache_unwrap, (raw,), attrs),
    ensures
        exists|reading: Option<(u64, u32)>| #[trigger]
            clock::given_by_clock(reading) && ({
                let now: u64 = match reading {
                    Some((secs, _)) => secs,
                    None => 0,
                };
                match attrs {
                    Some(value) => exists|expiry: u64|
                        now < expiry && #[trigger] reads_as_entry(
                            raw@,
                            json::json_view(value),
                            expiry,
                        ),
                    None => forall|held: Json, expiry: u64| #[trigger]
                        reads_as_entry(raw@, held, expiry) ==> expiry <= now,
                }
            }),
{
    let now = choose|now: u64|
        call_ensures(clock::now_secs, (), now) && json::option_view(attrs)
            == #[trigger] cache::cached(raw@, now);
    clock::law_now_is_read_off_the_clock(now);
    if let Some(value) = attrs {
        let expiry = cache::entry_expiry(json::json_of_text(raw@)->0);
        assert(reads_as_entry(raw@, json::json_view(value), expiry));
    }
}

/// An entry is built with the expiry under `exp`, the attributes under `v`, and nothing else.
pub proof fn law_build_entry(attrs: Value, expiry: u64, entry: Value)
    requires
        call_ensures(cache::build_entry, (&attrs, expiry), entry),
    ensures
        is_entry(json::json_view(entry), json::json_view(attrs), expiry),
        json::json_view(entry)->Object_0.dom() == set!["exp"@, "v"@],
{
    cache::lemma_entry_members(json::json_view(attrs), expiry);
    assert(json::json_view(entry)->Object_0.dom() =~= set!["exp"@, "v"@]);
}

/// The text of an entry is that of the document with the expiry under `exp`, the attributes under
/// `v`, and nothing else.
pub proof fn law_cache_wrap(attrs: Value, expiry: u64, raw: String)
    requires
        call_ensures(cache::cache_wrap, (&attrs, expiry), raw),
    ensures
        raw@ == json::json_text(
            Json::Object(
                Map::empty().insert("exp"@, Json::Int(expiry as int)).insert(
                    "v"@,
                    json::json_view(attrs),
                ),
            ),
        ),
{
}

/// What is wrapped is unwrapped unchanged before the expiry, where the attributes nest no deeper
/// than a reader of JSON takes and each fraction in them reads back. From the expiry on nothing is
/// unwrapped.
pub proof fn law_wrapped_is_unwrapped(
    attrs: Value,
    expiry: u64,
    raw: String,
    text: &str,
    now: u64,
    unwrapped: Option<Value>,
)
    requires
        call_ensures(cache::cache_wrap, (&attrs, expiry), raw),
        text@ == raw@,
        call_ensures(cache::cache_unwrap_at, (text, now), unwrapped),
    ensures
        now >= expiry ==> unwrapped is None,
        now < expiry && json::nested(json::json_view(attrs), 126) && json::steady(
            json::json_view(attrs),
        ) ==> unwrapped is Some && json::json_view(unwrapped->0) == json::json_view(attrs),
{
    assert(now >= expiry ==> cache::cached(raw@, now) is None);
    if now < expiry && cache::keepable(json::json_view(attrs)) {
        assert(cache::cached(raw@, now) == Some(json::json_view(attrs)));
    }
}

/// A time that fits: the configured minutes as seconds, and the time that far from now on, where
/// no token bounds it.
pub open spec fn time_fits(ttl_minutes: int, token_exp: Option<u64>, now: u64) -> bool {
    &&& ttl_minutes * 60 <= u64::MAX
    &&& token_exp is None ==> now + ttl_minutes * 60 <= u64::MAX
}

/// `expiry` is when a result of the time `now` expires: as late as it can be, but neither past the
/// configured minutes, where there are any, nor past the token, where it says when it expires.
/// There is no such time where neither bounds it, or it would not be later than `now`.
pub open spec fn is_expiry(
    ttl_minutes: int,
    token_exp: Option<u64>,
    now: u64,
    expiry: Option<u64>,
) -> bool {
    match expiry {
        Some(at) => {
            &&& now < at
            &&& ttl_minutes > 0 ==> at <= now + ttl_minutes * 60
            &&& token_exp is Some ==> at <= token_exp->0
            &&& (ttl_minutes > 0 && at == now + ttl_minutes * 60) || token_exp == Some(at)
        },
        None => {
            ||| ttl_minutes == 0 && token_exp is None
            ||| token_exp is Some && token_exp->0 <= now
        },
    }
}

/// A result expires as late as the configured minutes and the token allow, and is not cached where
/// that is no later than now or nothing bounds it. Only a time beyond 64 bits is left out.
pub proof fn law_cache_expiry(
    ttl_minutes: u64,
    token_exp: Option<u64>,
    now: u64,
    expiry: Option<u64>,
)
    requires
        time_fits(ttl_minutes as int, token_exp, now),
        call_ensures(cache::cache_expiry, (ttl_minutes, token_exp, now), expiry),
    ensures
        call_requires(cache::cache_expiry, (ttl_minutes, token_exp, now)),
        is_expiry(ttl_minutes as int, token_exp, now, expiry),
{
}

/// A time is found to fit exactly where it does.
pub proof fn law_check_expiry_fits(
    ttl_minutes: u64,
    token_exp: Option<u64>,
    now: u64,
    fits: bool,
)
    requires
        call_ensures(cache::check_expiry_fits, (ttl_minutes, token_exp, now), fits),
    ensures
        fits == time_fits(ttl_minutes as int, token_exp, now),
{
}

proof fn lemma_filter_prefix(keys: Seq<Seq<char>>, pred: spec_fn(Seq<char>) -> bool, count: int)
    -> (cut: int)
    requires
        0 <= count <= keys.filter(pred).len(),
    ensures
        0 <= cut <= keys.len(),
        keys.take(cut).filter(pred) == keys.filter(pred).take(count),
    decreases keys.len(),
{
    reveal(Seq::filter);
    let picked = keys.filter(pred);
    if count == picked.len() {
        assert(keys.take(keys.len() as int) =~= keys);
        assert(picked.take(count) =~= picked);
        keys.len() as int
    } else {
        let rest = keys.drop_last();
        assert(rest.filter(pred) =~= picked || rest.filter(pred) =~= picked.drop_last());
        let cut = lemma_filter_prefix(rest, pred, count);
        assert(rest.take(cut) =~= keys.take(cut));
        assert(rest.filter(pred).take(count) =~= picked.take(count));
        cut
    }
}

proof fn lemma_filter_no_duplicates(keys: Seq<Seq<char>>, pred: spec_fn(Seq<char>) -> bool)
    requires
        keys.no_duplicates(),
    ensures
        keys.filter(pred).no_duplicates(),
    decreases keys.len(),
{
    reveal(Seq::filter);
    if keys.len() > 0 {
        let rest = keys.drop_last();
        lemma_filter_no_duplicates(rest, pred);
        if rest.filter(pred).contains(keys.last()) {
            rest.lemma_filter_contains_rev(pred, keys.last());
        }
    }
}

/// The keys that are deleted are the first that the store lists, never the one that is written,
/// and so many that the store then holds `max` keys, or all that it had where these are fewer.
pub open spec fn makes_room(
    keys: Seq<Seq<char>>,
    key: Seq<char>,
    max: int,
    evict: Seq<Seq<char>>,
) -> bool {
    &&& !evict.contains(key)
    &&& exists|cut: int|
        0 <= cut <= keys.len() && evict.to_set() == (#[trigger] keys.take(cut)).to_set().remove(key)
    &&& laws::stored_keys(keys, evict, key).finite()
    &&& laws::stored_keys(keys, evict, key).len() <= max
    &&& keys.no_duplicates() ==> laws::stored_keys(keys, evict, key).len() == vstd::math::min(
        max,
        keys.to_set().insert(key).len() as int,
    )
}

/// The keys that are chosen for deletion make room.
pub proof fn lemma_makes_room(keys: Seq<Seq<char>>, key: Seq<char>, max: int)
    requires
        max >= 1,
    ensures
        makes_room(keys, key, max, cache::evicted(keys, key, max)),
{
    let pred = cache::differs_from(key);
    let others = cache::other_keys(keys, key);
    let gone = cache::excess(others.len(), max) as int;
    let evict = cache::evicted(keys, key, max);
    let kept = others.skip(gone);
    assert forall|k: Seq<char>| others.contains(k) <==> keys.contains(k) && k != key by {
        if others.contains(k) {
            keys.lemma_filter_contains_rev(pred, k);
            let i = choose|i: int| 0 <= i < others.len() && others[i] == k;
            keys.lemma_filter_pred(pred, i);
        }
        if keys.contains(k) && k != key {
            let i = choose|i: int| 0 <= i < keys.len() && keys[i] == k;
            keys.lemma_filter_contains(pred, i);
        }
    }
    assert forall|k: Seq<char>| others.contains(k) <==> evict.contains(k) || kept.contains(k) by {
        if others.contains(k) {
            let i = choose|i: int| 0 <= i < others.len() && others[i] == k;
            if i < gone {
                assert(evict[i] == k);
            } else {
                assert(kept[i - gone] == k);
            }
        }
        if evict.contains(k) {
            let i = choose|i: int| 0 <= i < evict.len() && evict[i] == k;
            assert(others[i] == k);
        }
        if kept.contains(k) {
            let i = choose|i: int| 0 <= i < kept.len() && kept[i] == k;
            assert(others[i + gone] == k);
        }
    }
    let cut = lemma_filter_prefix(keys, pred, gone);
    let first = keys.take(cut);
    assert forall|k: Seq<char>| evict.to_set().contains(k) <==> first.to_set().remove(key).contains(
        k,
    ) by {
        if evict.contains(k) {
            first.lemma_filter_contains_rev(pred, k);
        }
        if first.contains(k) && k != key {
            let i = choose|i: int| 0 <= i < first.len() && first[i] == k;
            first.lemma_filter_contains(pred, i);
        }
    }
    assert(evict.to_set() =~= first.to_set().remove(key));
    let left = laws::stored_keys(keys, evict, key);
    let most = kept.to_set().insert(key);
    kept.lemma_cardinality_of_set();
    assert(left.subset_of(most));
    vstd::set_lib::lemma_len_subset(left, most);
    if keys.no_duplicates() {
        lemma_filter_no_duplicates(keys, pred);
        others.unique_seq_to_set();
        kept.unique_seq_to_set();
        assert(left =~= most) by {
            assert forall|k: Seq<char>| kept.contains(k) implies !evict.contains(k) by {
                let i = choose|i: int| 0 <= i < kept.len() && kept[i] == k;
                assert(others[i + gone] == k);
                if evict.contains(k) {
                    let j = choose|j: int| 0 <= j < evict.len() && evict[j] == k;
                    assert(others[j] == k);
                }
            }
        }
        assert(keys.to_set().insert(key) =~= others.to_set().insert(key));
        assert(!others.to_set().contains(key));
        assert(!kept.to_set().contains(key));
    }
}

/// Room is made for a key as far as it is needed, and no further.
pub proof fn law_evictions(keys: Vec<String>, key: String, max: u64, evict: Vec<String>)
    requires
        max >= 1,
        call_ensures(cache::evictions, (&keys, &key, max), evict),
    ensures
        call_requires(cache::evictions, (&keys, &key, max)),
        makes_room(
            keys@.map_values(|s: String| s@),
            key@,
            max as int,
            evict@.map_values(|s: String| s@),
        ),
{
    lemma_makes_room(config::texts(keys@), key@, max as int);
    assert(config::texts(keys@) =~= keys@.map_values(|s: String| s@));
    assert(config::texts(evict@) =~= evict@.map_values(|s: String| s@));
}

/// The attributes of nobody are an object without entries.
pub proof fn law_empty_attributes(attrs: Value)
    requires
        call_ensures(json::empty_attributes, (), attrs),
    ensures
        json::json_view(attrs) == Json::Object(Map::empty()),
{
}

/// The name of a failure: a text of its own for each kind, with the status of the answer behind it
/// where there was an answer.
pub proof fn law_reason(failure: Failure, reason: String)
    requires
        call_ensures(Failure::reason, (&failure,), reason),
    ensures
        match failure {
            Failure::Unreachable => reason@ == "userinfo_unreachable"@,
            Failure::Unparseable => reason@ == "userinfo_unparseable"@,
            Failure::HttpStatus(status) => reason@.len() > 16 && reason@.take(16)
                == "userinfo_status_"@ && writes(reason@.skip(16), status as nat, 10),
        },
{
    if let Failure::HttpStatus(status) = failure {
        reveal_strlit("userinfo_status_");
        lemma_digits(status as nat, 10);
        assert(reason@.take(16) =~= "userinfo_status_"@);
        assert(reason@.skip(16) =~= text::decimal(status as int));
    }
}

/// The body is UTF-8 and reads as the document, which is an object.
pub open spec fn body_reads_as(body: Seq<u8>, document: Json) -> bool {
    &&& valid_utf8(body)
    &&& json::json_of_text(decode_utf8(body)) == Some(document)
    &&& document is Object
}

/// A document that has been read is taken where it is an object.
pub proof fn law_root_object(root: Value, result: Result<Value, Failure>)
    requires
        call_ensures(attributes::root_object, (root,), result),
    ensures
        match result {
            Ok(document) => json::json_view(root) is Object && json::json_view(document)
                == json::json_view(root),
            Err(failure) => !(json::json_view(root) is Object) && failure == Failure::Unparseable,
        },
{
}

/// A reply is a failure unless it is an answer with status 200 whose body is a JSON object. Each
/// failure says which of these it was: no answer, the status that came in place of 200, or the
/// body.
pub proof fn law_read_reply(reply: Reply, result: Result<Value, Failure>)
    requires
        call_ensures(attributes::read_reply, (&reply,), result),
    ensures
        match reply {
            Reply::Unreachable => result == Err::<Value, Failure>(Failure::Unreachable),
            Reply::Response { status, body } => match result {
                Ok(document) => status == 200 && body_reads_as(
                    body@,
                    json::json_view(document),
                ),
                Err(failure) => if status == 200 {
                    failure == Failure::Unparseable && forall|document: Json|
                        !body_reads_as(body@, document)
                } else {
                    failure == Failure::HttpStatus(status)
                },
            },
        },
{
}

/// The document has the custom attribute.
pub open spec fn has_attribute(document: Json, key: Seq<char>, value: Json) -> bool {
    match document {
        Json::Object(entries) => entries.contains_key("custom_attributes"@)
            && match entries["custom_attributes"@] {
            Json::Object(attrs) => attrs.contains_key(key) && attrs[key] == value,
            _ => false,
        },
        _ => false,
    }
}

/// The allow-list names the attribute, or names none at all.
pub open spec fn lets_through(allow_list: Option<Vec<String>>, key: Seq<char>) -> bool {
    match allow_list {
        Some(list) => list@.len() == 0 || exists|i: int|
            0 <= i < list@.len() && (#[trigger] list@[i])@ == key,
        None => true,
    }
}

/// The pair-set holds the custom attributes of the document that the allow-list lets through, each
/// with its value, and nothing else.
pub open spec fn relays(document: Json, allow_list: Option<Vec<String>>, attrs: Json) -> bool {
    &&& attrs is Object
    &&& forall|key: Seq<char>| #[trigger]
        attrs->Object_0.contains_key(key) ==> has_attribute(document, key, attrs->Object_0[key])
            && lets_through(allow_list, key)
    &&& forall|key: Seq<char>, value: Json| #[trigger]
        has_attribute(document, key, value) && lets_through(allow_list, key)
            ==> attrs->Object_0.contains_key(key)
}

/// The names in an allow-list let through what the allow-list lets through.
pub proof fn lemma_relays(
    document: Json,
    allow_list: Option<Vec<String>>,
    names: Seq<Seq<char>>,
)
    requires
        names == match allow_list {
            Some(list) => config::texts(list@),
            None => Seq::empty(),
        },
    ensures
        relays(document, allow_list, attributes::relayed(document, names)),
{
    assert forall|key: Seq<char>| lets_through(allow_list, key) <==> names.len() == 0
        || names.contains(key) by {
        if let Some(list) = allow_list {
            if lets_through(allow_list, key) && list@.len() > 0 {
                let i = choose|i: int| 0 <= i < list@.len() && (#[trigger] list@[i])@ == key;
                assert(names[i] == key);
            }
            if names.contains(key) {
                let i = choose|i: int| 0 <= i < names.len() && names[i] == key;
                assert(list@[i]@ == key);
            }
        }
    }
}

/// Of a document the custom attributes are relayed that the allow-list lets through.
pub proof fn law_relay(document: Value, allow_list: Option<Vec<String>>, attrs: Value)
    requires
        call_ensures(attributes::relay, (&document, &allow_list), attrs),
    ensures
        relays(json::json_view(document), allow_list, json::json_view(attrs)),
{
    let names = match allow_list {
        Some(list) => config::texts(list@),
        None => Seq::empty(),
    };
    lemma_relays(json::json_view(document), allow_list, names);
}

/// The text for each status.
pub proof fn law_status_text(status: Status, text: &'static str)
    requires
        call_ensures(Status::as_str, (&status,), text),
    ensures
        status == Status::Enriched ==> text@ == "ok"@,
        status == Status::Failed ==> text@ == "error"@,
        status == Status::Unauthenticated ==> text@ == "unauthenticated"@,
{
}

/// The properties hold the pair-set under the configured key and the status under its own, and
/// nothing else; where the two keys are one, the status.
pub open spec fn holds_properties(
    properties: Json,
    config: Config,
    attrs: Json,
    status: Status,
) -> bool {
    let attrs_key = match config.properties_key {
        Some(key) => key@,
        None => "custom_attributes"@,
    };
    let status_key = match config.status_property {
        Some(property) => property@,
        None => "mcp_enrichment_status"@,
    };
    let status_text = match status {
        Status::Enriched => "ok"@,
        Status::Failed => "error"@,
        Status::Unauthenticated => "unauthenticated"@,
    };
    &&& properties is Object
    &&& properties->Object_0.dom() == set![attrs_key, status_key]
    &&& properties->Object_0[status_key] == Json::Str(status_text)
    &&& attrs_key != status_key ==> properties->Object_0[attrs_key] == attrs
}

/// The properties are the pair-set and the status.
pub proof fn law_build_properties(config: Config, attrs: Value, status: Status, props: Value)
    requires
        call_ensures(auth::build_properties, (&config, &attrs, status), props),
    ensures
        holds_properties(json::json_view(props), config, json::json_view(attrs), status),
{
    let attrs_key = config@.properties_key;
    let status_key = config@.status_property;
    assert(json::json_view(props)->Object_0.dom() =~= set![attrs_key, status_key]);
}

/// The principal, the client id and the client name are those of the authentication that was there
/// before; there are none where there was none. The properties are the pair-set, with its numbers
/// as doubles, and the status.
pub proof fn law_write_auth(
    existing: Option<AuthenticationData>,
    config: Config,
    attrs: Value,
    status: Status,
    data: AuthenticationData,
)
    requires
        call_ensures(auth::write_auth, (&existing, &config, &attrs, status), data),
    ensures
        match existing {
            Some(before) => {
                let written = auth::principal_view(data).identity;
                let known = auth::principal_view(before).identity;
                &&& written.principal == known.principal
                &&& written.client_id == known.client_id
                &&& written.client_name == known.client_name
            },
            None => {
                let written = auth::principal_view(data).identity;
                &&& written.principal is None
                &&& written.client_id is None
                &&& written.client_name is None
            },
        },
        holds_properties(
            auth::principal_view(data).properties,
            config,
            auth::with_doubles(json::json_view(attrs)),
            status,
        ),
{
    let attrs_key = config@.properties_key;
    let status_key = config@.status_property;
    let held = auth::principal_view(data).properties->Object_0;
    let props = auth::properties(config@, json::json_view(attrs), status)->Object_0;
    assert(held.dom() =~= set![attrs_key, status_key]);
    assert(props.contains_key(attrs_key) && props.contains_key(status_key));
    assert(held[status_key] == auth::with_doubles(props[status_key]));
    assert(held[attrs_key] == auth::with_doubles(props[attrs_key]));
}

/// Documents are handed on as they are, but for whole numbers, which become doubles.
pub proof fn law_documents_are_handed_on(document: Json)
    ensures
        match document {
            Json::Int(n) => auth::with_doubles(document) == Json::Float(auth::double_bits(n)),
            Json::Array(items) => {
                let handed_on = auth::with_doubles(document);
                &&& handed_on is Array
                &&& handed_on->Array_0.len() == items.len()
                &&& forall|i: int|
                    0 <= i < items.len() ==> #[trigger] handed_on->Array_0[i]
                        == auth::with_doubles(items[i])
            },
            Json::Object(entries) => {
                let handed_on = auth::with_doubles(document);
                &&& handed_on is Object
                &&& handed_on->Object_0.dom() == entries.dom()
                &&& forall|key: Seq<char>|
                    entries.contains_key(key) ==> #[trigger] handed_on->Object_0[key]
                        == auth::with_doubles(entries[key])
            },
            _ => auth::with_doubles(document) == document,
        },
{
    if let Json::Object(entries) = document {
        assert(auth::with_doubles(document)->Object_0.dom() =~= entries.dom());
    }
}

/// A setting is what the configuration says, and its default where it says nothing.
pub proof fn law_settings(
    config: Config,
    userinfo_path: &str,
    properties_key: &str,
    status_property: &str,
    timeout_ms: i64,
    cache_enabled: bool,
    cache_ttl_minutes: i64,
    max_cache_entries: i64,
)
    requires
        call_ensures(Config::userinfo_path, (&config,), userinfo_path),
        call_ensures(Config::properties_key, (&config,), properties_key),
        call_ensures(Config::status_property, (&config,), status_property),
        call_ensures(Config::timeout_ms, (&config,), timeout_ms),
        call_ensures(Config::cache_enabled, (&config,), cache_enabled),
        call_ensures(Config::cache_ttl_minutes, (&config,), cache_ttl_minutes),
        call_ensures(Config::max_cache_entries, (&config,), max_cache_entries),
    ensures
        userinfo_path@ == match config.userinfo_path {
            Some(path) => path@,
            None => "/services/oauth2/userinfo"@,
        },
        properties_key@ == match config.properties_key {
            Some(key) => key@,
            None => "custom_attributes"@,
        },
        status_property@ == match config.status_property {
            Some(property) => property@,
            None => "mcp_enrichment_status"@,
        },
        timeout_ms == match config.timeout_ms {
            Some(ms) => ms,
            None => 5000,
        },
        cache_enabled == match config.cache_enabled {
            Some(enabled) => enabled,
            None => true,
        },
        cache_ttl_minutes == match config.cache_ttl_minutes {
            Some(minutes) => minutes,
            None => 5,
        },
        max_cache_entries == match config.max_cache_entries {
            Some(entries) => entries,
            None => 1000,
        },
{
}

/// The minutes that a configuration asks for.
pub open spec fn minutes_of(config: Config) -> int {
    match config.cache_ttl_minutes {
        Some(minutes) => minutes as int,
        None => 5,
    }
}

/// The number of entries that a configuration asks for.
pub open spec fn entries_of(config: Config) -> int {
    match config.max_cache_entries {
        Some(entries) => entries as int,
        None => 1000,
    }
}

/// The timeout that a configuration asks for, in milliseconds.
pub open spec fn timeout_of(config: Config) -> int {
    match config.timeout_ms {
        Some(ms) => ms as int,
        None => 5000,
    }
}

/// Whether a configuration asks for results to be cached.
pub open spec fn caches(config: Config) -> bool {
    config.cache_enabled != Some(false)
}

/// The configuration keeps its limits: up to 60 minutes, an entry at least, and a timeout from
/// 1000 to 30000 milliseconds.
pub open spec fn within_limits(config: Config) -> bool {
    &&& 0 <= minutes_of(config) <= 60
    &&& entries_of(config) >= 1
    &&& 1000 <= timeout_of(config) <= 30000
}

/// A configuration is taken exactly where it keeps its limits. Otherwise the error is that of the
/// first limit that it breaks, with the value that breaks it.
pub proof fn law_configure(config: Config, result: Result<(), ConfigError>)
    requires
        call_ensures(config::configure, (&config,), result),
    ensures
        match result {
            Ok(_) => within_limits(config),
            Err(ConfigError::NegativeTtl(minutes)) => minutes == minutes_of(config) && minutes < 0,
            Err(ConfigError::NoCacheEntries(entries)) => {
                &&& minutes_of(config) >= 0
                &&& entries == entries_of(config) && entries < 1
            },
            Err(ConfigError::LongTtl(minutes)) => {
                &&& entries_of(config) >= 1
                &&& minutes == minutes_of(config) && minutes > 60
            },
            Err(ConfigError::TimeoutOutOfRange(ms)) => {
                &&& 0 <= minutes_of(config) <= 60
                &&& entries_of(config) >= 1
                &&& ms == timeout_of(config) && !(1000 <= ms <= 30000)
            },
            Err(ConfigError::Unparseable { raw, cause }) => false,
        },
{
}

/// The text ends in the number, behind what is said of it.
pub open spec fn says_of_number(text: Seq<char>, said: Seq<char>, number: int) -> bool {
    let behind = text.skip(said.len() as int);
    &&& text.len() > said.len()
    &&& text.take(said.len() as int) == said
    &&& number >= 0 ==> writes(behind, number as nat, 10)
    &&& number < 0 ==> behind[0] == '-' && writes(behind.skip(1), (-number) as nat, 10)
}

proof fn lemma_says_of_number(said: Seq<char>, number: int)
    ensures
        says_of_number(said + text::decimal(number), said, number),
{
    let text = said + text::decimal(number);
    assert(text.take(said.len() as int) =~= said);
    assert(text.skip(said.len() as int) =~= text::decimal(number));
    if number >= 0 {
        lemma_digits(number as nat, 10);
    } else {
        lemma_digits((-number) as nat, 10);
        assert(text::decimal(number).skip(1) =~= text::digits((-number) as nat, 10));
    }
}

/// The operator is told which setting is wrong, what it has to be, and what it is.
pub proof fn law_message(error: ConfigError, message: String)
    requires
        call_ensures(ConfigError::message, (&error,), message),
    ensures
        match error {
            ConfigError::Unparseable { raw, cause } => message@
                == "salesforce-userinfo-claims-enrichment: failed to parse configuration '"@ + raw@
                + "'. Cause: "@ + cause@,
            ConfigError::NegativeTtl(minutes) => says_of_number(
                message@,
                "salesforce-userinfo-claims-enrichment: cacheTtlMinutes must be >= 0, got "@,
                minutes as int,
            ),
            ConfigError::NoCacheEntries(entries) => says_of_number(
                message@,
                "salesforce-userinfo-claims-enrichment: maxCacheEntries must be >= 1, got "@,
                entries as int,
            ),
            ConfigError::LongTtl(minutes) => says_of_number(
                message@,
                "salesforce-userinfo-claims-enrichment: cacheTtlMinutes must be <= 60, got "@,
                minutes as int,
            ),
            ConfigError::TimeoutOutOfRange(ms) => says_of_number(
                message@,
                "salesforce-userinfo-claims-enrichment: timeoutMs must be between 1000 and 30000, got "@,
                ms as int,
            ),
        },
{
    match error {
        ConfigError::Unparseable { raw, cause } => {},
        ConfigError::NegativeTtl(minutes) => lemma_says_of_number(
            "salesforce-userinfo-claims-enrichment: cacheTtlMinutes must be >= 0, got "@,
            minutes as int,
        ),
        ConfigError::NoCacheEntries(entries) => lemma_says_of_number(
            "salesforce-userinfo-claims-enrichment: maxCacheEntries must be >= 1, got "@,
            entries as int,
        ),
        ConfigError::LongTtl(minutes) => lemma_says_of_number(
            "salesforce-userinfo-claims-enrichment: cacheTtlMinutes must be <= 60, got "@,
            minutes as int,
        ),
        ConfigError::TimeoutOutOfRange(ms) => lemma_says_of_number(
            "salesforce-userinfo-claims-enrichment: timeoutMs must be between 1000 and 30000, got "@,
            ms as int,
        ),
    }
}

} // verus!
