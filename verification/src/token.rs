//! The bearer token of a request: how it is found, what it is cached under, and when it expires.
use crate::json;
use crate::json::Json;
use crate::text;
use pdk::jwt::error::JWTError;
use pdk::jwt::model::JWTClaims;
use pdk::jwt::JWTClaimsParser;
use serde_json::Value;
use std::collections::hash_map::DefaultHasher;
use std::hash::{Hash, Hasher};
use vstd::prelude::*;
use vstd::std_specs::hash::*;
use vstd::string::*;

verus! {

/// How many characters the scheme of a bearer header has, the space behind it counted.
pub const SCHEME_LEN: usize = 7;

/// The header starts with the scheme `Bearer` and a space, in upper or lower case, and goes on.
pub open spec fn has_bearer_scheme(header: Seq<char>) -> bool {
    &&& header.len() > SCHEME_LEN
    &&& forall|i: int|
        0 <= i < SCHEME_LEN ==> #[trigger] header[i] == "bearer "@[i] || header[i]
            == "BEARER "@[i]
}

/// The bearer token of an `Authorization` header: what follows the scheme, without the white space
/// around it. Empty where the header carries no bearer token.
pub open spec fn bearer(header: Seq<char>) -> Seq<char> {
    if has_bearer_scheme(header) {
        text::trimmed(header.skip(SCHEME_LEN as int))
    } else {
        Seq::empty()
    }
}

/// What a `DefaultHasher` has been fed once `str::hash` has fed it a text.
pub uninterp spec fn hashed_str(fed: Seq<Seq<u8>>, text: Seq<char>) -> Seq<Seq<u8>>;

/// The hash of a token.
pub open spec fn token_hash(token: Seq<char>) -> u64 {
    DefaultHasher::spec_finish(hashed_str(Seq::empty(), token))
}

/// The key under which the attributes of the tokens with this hash are cached.
pub open spec fn hash_key(hash: u64) -> Seq<char> {
    "sf-ui-"@ + text::hex(hash as nat)
}

/// `str::hash` into a `DefaultHasher`. Claimed: what the hasher has been fed afterwards depends on
/// what it had been fed and on the text alone, and is what `hashed_str` names.
#[verifier::external_body]
fn hash_str(text: &str, hasher: &mut DefaultHasher)
    ensures
        final(hasher)@ == hashed_str(old(hasher)@, text@),
{
    text.hash(hasher)
}

/// Whether the header starts with the bearer scheme and goes on.
fn starts_with_scheme(header: &str) -> (result: bool)
    ensures
        result == has_bearer_scheme(header@),
{
    proof {
        reveal_strlit("bearer ");
        reveal_strlit("BEARER ");
    }
    if header.unicode_len() <= SCHEME_LEN {
        return false;
    }
    let mut i: usize = 0;
    while i < SCHEME_LEN
        invariant
            i <= SCHEME_LEN < header@.len(),
            "bearer "@.len() == SCHEME_LEN,
            "BEARER "@.len() == SCHEME_LEN,
            forall|j: int|
                0 <= j < i ==> #[trigger] header@[j] == "bearer "@[j] || header@[j]
                    == "BEARER "@[j],
        decreases SCHEME_LEN - i,
    {
        let c = header.get_char(i);
        if c != "bearer ".get_char(i) && c != "BEARER ".get_char(i) {
            return false;
        }
        i += 1;
    }
    true
}

/// The bearer token of an `Authorization` header, empty where it carries none.
pub fn bearer_token(header: &str) -> (token: String)
    ensures
        token@ == bearer(header@),
{
    if starts_with_scheme(header) {
        let rest = header.substring_char(SCHEME_LEN, header.unicode_len());
        text::trim(rest).to_owned()
    } else {
        String::new()
    }
}

/// The cache key for a hash.
pub fn key_of_hash(hash: u64) -> (key: String)
    ensures
        key@ == hash_key(hash),
{
    let mut key = "sf-ui-".to_owned();
    key.append(text::to_hex(hash).as_str());
    key
}

/// Compute a stable cache key from the raw bearer token.
pub fn cache_key(token: &str) -> (key: String)
    ensures
        key@ == hash_key(token_hash(token@)),
{
    let mut hasher = DefaultHasher::new();
    hash_str(token, &mut hasher);
    key_of_hash(hasher.finish())
}

/// `pdk::jwt::model::JWTClaims`.
#[verifier::external_type_specification]
#[verifier::external_body]
pub struct ExJwtClaims(JWTClaims);

/// `pdk::jwt::error::JWTError`.
#[verifier::external_type_specification]
#[verifier::external_body]
pub struct ExJwtError(JWTError);

/// The claims that a `JWTClaims` holds.
pub uninterp spec fn claims_view(claims: JWTClaims) -> Map<Seq<char>, Json>;

/// The claims that `JWTClaimsParser::parse` reads from a token, `None` where it reports an error.
pub uninterp spec fn jwt_claims(token: Seq<char>) -> Option<Map<Seq<char>, Json>>;

/// `pdk::jwt::JWTClaimsParser::parse`. Claimed: the result depends on the token alone, and is what
/// `jwt_claims` names.
pub assume_specification[ JWTClaimsParser::parse ](jwt: String) -> (result: Result<
    JWTClaims,
    JWTError,
>)
    ensures
        match result {
            Ok(claims) => jwt_claims(jwt@) == Some(claims_view(claims)),
            Err(_) => jwt_claims(jwt@) is None,
        },
;

/// `pdk::jwt::model::JWTClaims::get_claim` at the type `Value`. Claimed: it gives the claim of that
/// name, `None` where there is none.
#[verifier::external_body]
fn get_claim(claims: &JWTClaims, name: &str) -> (result: Option<Value>)
    ensures
        json::option_view(result) == json::member(Json::Object(claims_view(*claims)), name@),
{
    claims.get_claim(name)
}

/// When claims say that their token expires: the claim `exp`, where it is a whole number of
/// seconds.
pub open spec fn expiry_claim(claims: Map<Seq<char>, Json>) -> Option<u64> {
    match json::member(Json::Object(claims), "exp"@) {
        Some(exp) => json::unsigned(exp),
        None => None,
    }
}

/// When a token expires, in seconds since the epoch; `None` where it does not say so.
pub open spec fn expiry_of_token(token: Seq<char>) -> Option<u64> {
    match jwt_claims(token) {
        Some(claims) => expiry_claim(claims),
        None => None,
    }
}

/// When the token with these claims expires.
pub fn claimed_expiry(claims: &JWTClaims) -> (result: Option<u64>)
    ensures
        result == expiry_claim(claims_view(*claims)),
{
    match get_claim(claims, "exp") {
        Some(exp) => exp.as_u64(),
        None => None,
    }
}

/// When a token expires. A token that is no JWT, or has no `exp`, does not say.
pub fn token_expiry(token: &str) -> (result: Option<u64>)
    ensures
        result == expiry_of_token(token@),
{
    match JWTClaimsParser::parse(token.to_owned()) {
        Ok(claims) => claimed_expiry(&claims),
        Err(_) => None,
    }
}

} // verus!
