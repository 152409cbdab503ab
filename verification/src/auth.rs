//! The authentication that the policy hands on to the policies behind it.
use crate::config::{Config, Settings};
use crate::json;
use crate::json::Json;
use pdk::authentication::AuthenticationData;
use serde_json::Value;
use vstd::prelude::*;
use vstd::string::*;

verus! {

/// How an enrichment ended.
#[derive(Clone, Copy, Debug, PartialEq, Eq, Structural)]
pub enum Status {
    /// The attributes are those of the user.
    Enriched,
    /// The UserInfo endpoint failed.
    Failed,
    /// The request carries no bearer token.
    Unauthenticated,
}

impl Status {
    /// The status as it is written into the properties.
    pub open spec fn written(self) -> Seq<char> {
        match self {
            Status::Enriched => "ok"@,
            Status::Failed => "error"@,
            Status::Unauthenticated => "unauthenticated"@,
        }
    }

    /// The status as it is written into the properties.
    pub fn as_str(&self) -> (text: &'static str)
        ensures
            text@ == self.written(),
    {
        match self {
            Status::Enriched => "ok",
            Status::Failed => "error",
            Status::Unauthenticated => "unauthenticated",
        }
    }
}

/// Who a request comes from, as an earlier policy has found.
pub struct Identity {
    pub principal: Option<Seq<char>>,
    pub client_id: Option<Seq<char>>,
    pub client_name: Option<Seq<char>>,
}

/// An authentication: who the request comes from, and the properties of that principal. The
/// properties are a document in which every number is a double.
pub struct Principal {
    pub identity: Identity,
    pub properties: Json,
}

/// `pdk::authentication::AuthenticationData`.
#[verifier::external_type_specification]
#[verifier::external_body]
pub struct ExAuthenticationData(AuthenticationData);

/// What an `AuthenticationData` holds.
pub uninterp spec fn principal_view(data: AuthenticationData) -> Principal;

/// The bits of the double that `serde_json::Number::as_f64` gives for a whole number.
pub uninterp spec fn double_bits(number: int) -> u64;

/// The text, where there is one.
pub open spec fn option_text(text: Option<String>) -> Option<Seq<char>> {
    match text {
        Some(s) => Some(s@),
        None => None,
    }
}

/// A document with its whole numbers turned into doubles, the rest unchanged.
pub open spec fn with_doubles(document: Json) -> Json
    decreases document,
{
    match document {
        Json::Int(n) => Json::Float(double_bits(n)),
        Json::Array(items) => Json::Array(
            Seq::new(
                items.len(),
                |i: int|
                    if 0 <= i < items.len() {
                        with_doubles(items[i])
                    } else {
                        Json::Null
                    },
            ),
        ),
        Json::Object(entries) => Json::Object(
            Map::new(
                |key: Seq<char>| entries.contains_key(key),
                |key: Seq<char>|
                    if entries.contains_key(key) {
                        with_doubles(entries[key])
                    } else {
                        Json::Null
                    },
            ),
        ),
        _ => document,
    }
}

/// The identity of a request that no earlier policy has looked at.
pub open spec fn nobody() -> Identity {
    Identity { principal: None, client_id: None, client_name: None }
}

/// The identity of a request, as far as an earlier policy has found one.
pub open spec fn known_identity(existing: Option<AuthenticationData>) -> Identity {
    match existing {
        Some(data) => principal_view(data).identity,
        None => nobody(),
    }
}

/// The properties that are written: the pair-set under its key, and the status under its own. The
/// status prevails where the two keys are one.
pub open spec fn properties(settings: Settings, attrs: Json, status: Status) -> Json {
    Json::Object(
        json::no_entries().insert(settings.properties_key, attrs).insert(
            settings.status_property,
            Json::Str(status.written()),
        ),
    )
}

/// `pdk::authentication::AuthenticationData::new` with JSON properties. Claimed: the data hold the
/// three texts and the properties, in these the whole numbers as doubles.
#[verifier::external_body]
fn authentication_data(
    principal: Option<String>,
    client_id: Option<String>,
    client_name: Option<String>,
    props: Value,
) -> (result: AuthenticationData)
    ensures
        principal_view(result).identity.principal == option_text(principal),
        principal_view(result).identity.client_id == option_text(client_id),
        principal_view(result).identity.client_name == option_text(client_name),
        principal_view(result).properties == with_doubles(json::json_view(props)),
        json::json_view(props) is Int ==> principal_view(result).properties == Json::Float(
            double_bits(json::json_view(props)->Int_0),
        ),
{
    AuthenticationData::new(principal, client_id, client_name, props)
}

/// The fields `principal`, `client_id` and `client_name` of a
/// `pdk::authentication::AuthenticationData`, cloned. Claimed: they are the identity that the data
/// hold.
#[verifier::external_body]
fn identity_fields(data: &AuthenticationData) -> (result: (
    Option<String>,
    Option<String>,
    Option<String>,
))
    ensures
        option_text(result.0) == principal_view(*data).identity.principal,
        option_text(result.1) == principal_view(*data).identity.client_id,
        option_text(result.2) == principal_view(*data).identity.client_name,
{
    (data.principal.clone(), data.client_id.clone(), data.client_name.clone())
}

/// The properties object: the pair-set and the status.
pub fn build_properties(config: &Config, attrs: &Value, status: Status) -> (props: Value)
    ensures
        json::json_view(props) == properties(config@, json::json_view(*attrs), status),
{
    let mut props = serde_json::Map::new();
    props.insert(config.properties_key().to_owned(), attrs.clone());
    props.insert(
        config.status_property().to_owned(),
        json::string_value(status.as_str().to_owned()),
    );
    json::object_value(props)
}

/// The enriched authentication: the identity is kept, the properties are the pair-set and the
/// status.
pub fn write_auth(
    existing: &Option<AuthenticationData>,
    config: &Config,
    attrs: &Value,
    status: Status,
) -> (data: AuthenticationData)
    ensures
        principal_view(data).identity == known_identity(*existing),
        principal_view(data).properties == with_doubles(
            properties(config@, json::json_view(*attrs), status),
        ),
{
    let props = build_properties(config, attrs, status);
    match existing {
        Some(data) => {
            let (principal, client_id, client_name) = identity_fields(data);
            authentication_data(principal, client_id, client_name, props)
        },
        None => authentication_data(None, None, None, props),
    }
}

} // verus!
