//! JSON documents: a mathematical model of `serde_json::Value`, and the calls into `serde_json`
//! that the policy makes.
use vstd::prelude::*;

verus! {

/// The tree that a JSON document stands for.
///
/// Whole numbers are `Int`, every other number is `Float` with the bits of its IEEE 754 double.
/// The entries of an object are a map: their order carries no meaning.
pub enum Json {
    Null,
    Bool(bool),
    Int(int),
    Float(u64),
    Str(Seq<char>),
    Array(Seq<Json>),
    Object(Map<Seq<char>, Json>),
}

/// How many arrays and objects `serde_json` reads one inside the other before it gives up.
pub const MAX_NESTING: u8 = 127;

/// The entries of an object that has none.
pub open spec fn no_entries() -> Map<Seq<char>, Json> {
    Map::empty()
}

/// The object without entries.
pub open spec fn empty_object() -> Json {
    Json::Object(no_entries())
}

/// The entry of `json` under `key`, where `json` is an object that has one.
pub open spec fn member(json: Json, key: Seq<char>) -> Option<Json> {
    match json {
        Json::Object(entries) => if entries.contains_key(key) {
            Some(entries[key])
        } else {
            None
        },
        _ => None,
    }
}

/// The number that `json` is, where it is a whole number that fits in a `u64`.
pub open spec fn unsigned(json: Json) -> Option<u64> {
    match json {
        Json::Int(n) => if 0 <= n <= u64::MAX {
            Some(n as u64)
        } else {
            None
        },
        _ => None,
    }
}

/// `serde_json::Value`.
#[verifier::external_type_specification]
#[verifier::external_body]
pub struct ExValue(serde_json::Value);

/// `serde_json::Error`.
#[verifier::external_type_specification]
#[verifier::external_body]
pub struct ExJsonError(serde_json::Error);

/// `serde_json::Map`.
#[verifier::external_type_specification]
#[verifier::external_body]
#[verifier::reject_recursive_types(K)]
#[verifier::reject_recursive_types(V)]
pub struct ExObject<K, V>(serde_json::Map<K, V>);

/// What a `serde_json::Value` holds.
pub uninterp spec fn json_view(value: serde_json::Value) -> Json;

/// The entries of a `serde_json::Map`.
pub uninterp spec fn object_view(object: serde_json::Map<String, serde_json::Value>) -> Map<
    Seq<char>,
    Json,
>;

/// The document that `serde_json::from_str` reads from a text, `None` where it reports an error.
pub uninterp spec fn json_of_text(text: Seq<char>) -> Option<Json>;

/// The text that `serde_json::to_string` writes for a document.
pub uninterp spec fn json_text(json: Json) -> Seq<char>;

/// What a borrowed value holds, where there is one.
pub open spec fn ref_view(value: Option<&serde_json::Value>) -> Option<Json> {
    match value {
        Some(v) => Some(json_view(*v)),
        None => None,
    }
}

/// What an owned value holds, where there is one.
pub open spec fn option_view(value: Option<serde_json::Value>) -> Option<Json> {
    match value {
        Some(v) => Some(json_view(v)),
        None => None,
    }
}

/// Reading the text of the document gives the document back.
pub open spec fn reads_back(json: Json) -> bool {
    json_of_text(json_text(json)) == Some(json)
}

/// Arrays and objects stand at most `depth` deep one inside the other.
pub open spec fn nested(json: Json, depth: nat) -> bool
    decreases depth,
{
    match json {
        Json::Array(items) => depth > 0 && forall|i: int|
            0 <= i < items.len() ==> nested(#[trigger] items[i], (depth - 1) as nat),
        Json::Object(entries) => depth > 0 && forall|key: Seq<char>|
            entries.contains_key(key) ==> nested(#[trigger] entries[key], (depth - 1) as nat),
        _ => true,
    }
}

/// Each fraction in the document, written on its own, reads back as the same double.
pub open spec fn steady(json: Json) -> bool
    decreases json,
{
    match json {
        Json::Float(_) => reads_back(json),
        Json::Array(items) => forall|i: int|
            0 <= i < items.len() ==> steady(#[trigger] items[i]),
        Json::Object(entries) => forall|key: Seq<char>|
            entries.contains_key(key) ==> steady(#[trigger] entries[key]),
        _ => true,
    }
}

/// There is no fraction in the document.
pub open spec fn whole(json: Json) -> bool
    decreases json,
{
    match json {
        Json::Float(_) => false,
        Json::Array(items) => forall|i: int| 0 <= i < items.len() ==> whole(#[trigger] items[i]),
        Json::Object(entries) => forall|key: Seq<char>|
            entries.contains_key(key) ==> whole(#[trigger] entries[key]),
        _ => true,
    }
}

/// The document is nested at most `depth` deep, and each fraction in it reads back.
pub open spec fn exact(json: Json, depth: nat) -> bool {
    nested(json, depth) && steady(json)
}

/// A document without fractions has none that does not read back.
pub proof fn lemma_whole_is_steady(json: Json)
    requires
        whole(json),
    ensures
        steady(json),
    decreases json,
{
    match json {
        Json::Array(items) => {
            assert forall|i: int| 0 <= i < items.len() implies steady(#[trigger] items[i]) by {
                lemma_whole_is_steady(items[i]);
            }
        },
        Json::Object(entries) => {
            assert forall|key: Seq<char>| entries.contains_key(key) implies steady(
                #[trigger] entries[key],
            ) by {
                lemma_whole_is_steady(entries[key]);
            }
        },
        _ => {},
    }
}

/// Some `serde_json::Value` holds the document.
pub open spec fn is_held(json: Json) -> bool {
    exists|value: serde_json::Value| #[trigger] json_view(value) == json
}

/// No value that holds another document than this one has the text.
pub open spec fn text_only_of(text: Seq<char>, json: Json) -> bool {
    forall|other: serde_json::Value| #[trigger]
        json_text(json_view(other)) == text ==> json_view(other) == json
}

/// The entries of `json` that read back are entries of `read` too.
pub open spec fn keeps_entries(json: Json, read: Json) -> bool {
    forall|key: Seq<char>|
        match #[trigger] member(json, key) {
            Some(entry) => exact(entry, (MAX_NESTING - 1) as nat) ==> member(read, key) == Some(
                entry,
            ),
            None => true,
        }
}

/// `serde_json::from_str` at the type `Value`. Claimed: the result depends on the text alone, and
/// is what `json_of_text` names; what is read stays within the nesting that the reader takes.
#[verifier::external_body]
pub(crate) fn parse_json(text: &str) -> (result: Result<serde_json::Value, serde_json::Error>)
    ensures
        match result {
            Ok(value) => json_of_text(text@) == Some(json_view(value)) && nested(
                json_view(value),
                MAX_NESTING as nat,
            ),
            Err(_) => json_of_text(text@) is None,
        },
{
    serde_json::from_str(text)
}

/// `serde_json::to_string` of a `Value`. Claimed: it succeeds, the text depends on the document
/// alone and is what `json_text` names, and the text reads back as the document, where the
/// document stays within the nesting that the reader takes and each fraction in it reads back on
/// its own (the reader may round a fraction to a neighbouring double). Where the text of an object
/// reads back at all, each entry of it to which that applies is among what is read. Values that
/// hold different documents have different texts: the keys are sorted, strings are escaped one for
/// one, whole numbers are written in full, and of a fraction as many digits as tell it from every
/// other double, with a point or an exponent.
#[verifier::external_body]
pub(crate) fn print_json(value: &serde_json::Value) -> (result: Result<String, serde_json::Error>)
    ensures
        result is Ok,
        result->Ok_0@ == json_text(json_view(*value)),
        text_only_of(result->Ok_0@, json_view(*value)),
        exact(json_view(*value), MAX_NESTING as nat) ==> json_of_text(result->Ok_0@) == Some(
            json_view(*value),
        ),
        json_of_text(result->Ok_0@) is Some ==> keeps_entries(
            json_view(*value),
            json_of_text(result->Ok_0@)->0,
        ),
{
    serde_json::to_string(value)
}

/// `serde_json::Value::get` with a string. Claimed: it gives the entry of an object under that
/// key, and `None` on an object without one and on what is no object.
#[verifier::external_body]
pub(crate) fn get_member<'a>(value: &'a serde_json::Value, key: &str) -> (result: Option<
    &'a serde_json::Value,
>)
    ensures
        ref_view(result) == member(json_view(*value), key@),
{
    value.get(key)
}

/// `serde_json::Value::as_u64`. Claimed: it gives the number of a whole number from 0 to
/// `u64::MAX`, and `None` on everything else.
pub assume_specification[ serde_json::Value::as_u64 ](value: &serde_json::Value) -> (result: Option<
    u64,
>)
    ensures
        result == unsigned(json_view(*value)),
;

/// `serde_json::Value::is_object`. Claimed: it tells objects from everything else.
pub assume_specification[ serde_json::Value::is_object ](value: &serde_json::Value) -> (result:
    bool)
    ensures
        result == (json_view(*value) is Object),
;

/// `serde_json::Value::as_object`. Claimed: it gives the entries of an object, and `None` on
/// everything else.
pub assume_specification[ serde_json::Value::as_object ](value: &serde_json::Value) -> (result:
    Option<&serde_json::Map<String, serde_json::Value>>)
    ensures
        match result {
            Some(object) => json_view(*value) == Json::Object(object_view(*object)),
            None => !(json_view(*value) is Object),
        },
;

/// `serde_json::Value::clone`. Claimed: the clone holds the same document.
pub assume_specification[ <serde_json::Value as Clone>::clone ](value: &serde_json::Value) -> (
result: serde_json::Value)
    ensures
        json_view(result) == json_view(*value),
;

/// `serde_json::Map::new`. Claimed: the map has no entries.
pub assume_specification[ serde_json::Map::<String, serde_json::Value>::new ]() -> (result:
    serde_json::Map<String, serde_json::Value>)
    ensures
        object_view(result) == no_entries(),
;

/// `serde_json::Map::insert`. Claimed: the entry under the key is the new one, the others stay;
/// the former entry is handed back.
pub assume_specification[ serde_json::Map::<String, serde_json::Value>::insert ](
    object: &mut serde_json::Map<String, serde_json::Value>,
    k: String,
    v: serde_json::Value,
) -> (result: Option<serde_json::Value>)
    ensures
        object_view(*final(object)) == object_view(*old(object)).insert(k@, json_view(v)),
        option_view(result) == member(Json::Object(object_view(*old(object))), k@),
;

/// `serde_json::Map::iter`, its items collected. Claimed: each entry comes once.
#[verifier::external_body]
pub(crate) fn object_entries<'a>(object: &'a serde_json::Map<String, serde_json::Value>) -> (result:
    Vec<(&'a String, &'a serde_json::Value)>)
    ensures
        forall|i: int|
            0 <= i < result.len() ==> object_view(*object).contains_key(
                (#[trigger] result[i]).0@,
            ) && object_view(*object)[result[i].0@] == json_view(*result[i].1),
        forall|key: Seq<char>| #[trigger]
            object_view(*object).contains_key(key) ==> exists|i: int|
                0 <= i < result.len() && (#[trigger] result[i]).0@ == key,
        forall|i: int, j: int|
            0 <= i < j < result.len() ==> (#[trigger] result[i]).0@ != (#[trigger] result[j]).0@,
{
    object.iter().collect()
}

/// `serde_json::Value::Object`. Claimed: the value is the object with these entries.
#[verifier::external_body]
pub(crate) fn object_value(object: serde_json::Map<String, serde_json::Value>) -> (result:
    serde_json::Value)
    ensures
        json_view(result) == Json::Object(object_view(object)),
{
    serde_json::Value::Object(object)
}

/// `serde_json::Value::String`. Claimed: the value is that string.
#[verifier::external_body]
pub(crate) fn string_value(text: String) -> (result: serde_json::Value)
    ensures
        json_view(result) == Json::Str(text@),
{
    serde_json::Value::String(text)
}

/// `serde_json::Value::from` of a `u64`. Claimed: the value is that number.
#[verifier::external_body]
pub(crate) fn number_value(number: u64) -> (result: serde_json::Value)
    ensures
        json_view(result) == Json::Int(number as int),
{
    serde_json::Value::from(number)
}

/// The value of the object without entries.
pub fn empty_attributes() -> (result: serde_json::Value)
    ensures
        json_view(result) == empty_object(),
{
    object_value(serde_json::Map::new())
}

} // verus!
