//! The answer of the UserInfo endpoint, and the attributes that are relayed from it.
use crate::config;
use crate::json;
use crate::json::Json;
use crate::text;
use serde_json::Value;
use vstd::prelude::*;
use vstd::string::*;
use vstd::utf8::*;

verus! {

/// Why an enrichment came to nothing.
#[derive(Clone, Copy, Debug, PartialEq, Eq, Structural)]
pub enum Failure {
    /// The endpoint did not answer, or not in time.
    Unreachable,
    /// The endpoint answered with another status than 200.
    HttpStatus(u32),
    /// The body is no JSON object.
    Unparseable,
}

impl Failure {
    /// The name of the failure in logs.
    pub open spec fn named(self) -> Seq<char> {
        match self {
            Failure::Unreachable => "userinfo_unreachable"@,
            Failure::HttpStatus(status) => "userinfo_status_"@ + text::decimal(status as int),
            Failure::Unparseable => "userinfo_unparseable"@,
        }
    }

    /// The name of the failure in logs.
    pub fn reason(&self) -> (reason: String)
        ensures
            reason@ == self.named(),
    {
        match self {
            Failure::Unreachable => "userinfo_unreachable".to_owned(),
            Failure::HttpStatus(status) => {
                let mut reason = "userinfo_status_".to_owned();
                reason.append(text::to_decimal(*status as i64).as_str());
                reason
            },
            Failure::Unparseable => "userinfo_unparseable".to_owned(),
        }
    }
}

/// What came of the request to the UserInfo endpoint.
pub enum Reply {
    /// No answer: a transport error or a timeout.
    Unreachable,
    /// An answer.
    Response { status: u32, body: Vec<u8> },
}

/// The document in the body of an answer: the body is UTF-8 and JSON, and an object.
pub open spec fn userinfo_document(body: Seq<u8>) -> Option<Json> {
    if valid_utf8(body) {
        match json::json_of_text(decode_utf8(body)) {
            Some(document) => if document is Object {
                Some(document)
            } else {
                None
            },
            None => None,
        }
    } else {
        None
    }
}

/// The document that a reply brings, or the failure that it is.
pub open spec fn reply_document(reply: Reply) -> Result<Json, Failure> {
    match reply {
        Reply::Unreachable => Err(Failure::Unreachable),
        Reply::Response { status, body } => if status != 200 {
            Err(Failure::HttpStatus(status))
        } else {
            match userinfo_document(body@) {
                Some(document) => Ok(document),
                None => Err(Failure::Unparseable),
            }
        },
    }
}

/// The custom attributes in a UserInfo document. A user without any has the empty pair-set.
pub open spec fn custom_attributes(document: Json) -> Map<Seq<char>, Json> {
    match json::member(document, "custom_attributes"@) {
        Some(Json::Object(attrs)) => attrs,
        _ => json::no_entries(),
    }
}

/// The attributes that an allow-list lets through: those that it lists, all where it is empty.
pub open spec fn allowed(attrs: Map<Seq<char>, Json>, allow_list: Seq<Seq<char>>) -> Map<
    Seq<char>,
    Json,
> {
    if allow_list.len() == 0 {
        attrs
    } else {
        Map::new(
            |key: Seq<char>| attrs.contains_key(key) && allow_list.contains(key),
            |key: Seq<char>| attrs[key],
        )
    }
}

/// The pair-set that is relayed from a UserInfo document.
pub open spec fn relayed(document: Json, allow_list: Seq<Seq<char>>) -> Json {
    Json::Object(allowed(custom_attributes(document), allow_list))
}

/// The pair-set that is relayed from a document stands one level less deep than the document.
pub proof fn lemma_relayed_nesting(document: Json, allow_list: Seq<Seq<char>>, depth: nat)
    requires
        depth >= 2,
        json::nested(document, depth),
    ensures
        json::nested(relayed(document, allow_list), (depth - 1) as nat),
{
    let attrs = custom_attributes(document);
    let inner = (depth - 1) as nat;
    assert(json::nested(Json::Object(attrs), inner)) by {
        if json::member(document, "custom_attributes"@) is Some {
            assert(json::nested(document->Object_0["custom_attributes"@], inner));
        }
    }
    let kept = allowed(attrs, allow_list);
    assert forall|key: Seq<char>| kept.contains_key(key) implies json::nested(
        #[trigger] kept[key],
        (inner - 1) as nat,
    ) by {
        assert(kept[key] == attrs[key]);
    }
}

/// What a result holds, where it is no failure.
pub open spec fn result_view(result: Result<Value, Failure>) -> Result<Json, Failure> {
    match result {
        Ok(value) => Ok(json::json_view(value)),
        Err(failure) => Err(failure),
    }
}

/// The document in a body that has been read as JSON.
pub fn root_object(root: Value) -> (result: Result<Value, Failure>)
    ensures
        result_view(result) == if json::json_view(root) is Object {
            Ok(json::json_view(root))
        } else {
            Err(Failure::Unparseable)
        },
{
    if root.is_object() {
        Ok(root)
    } else {
        Err(Failure::Unparseable)
    }
}

/// The document that a reply brings, or the failure that it is.
pub fn read_reply(reply: &Reply) -> (result: Result<Value, Failure>)
    ensures
        result_view(result) == reply_document(*reply),
        result matches Ok(document) ==> json::nested(
            json::json_view(document),
            json::MAX_NESTING as nat,
        ),
{
    match reply {
        Reply::Unreachable => Err(Failure::Unreachable),
        Reply::Response { status, body } => {
            if *status != 200 {
                return Err(Failure::HttpStatus(*status));
            }
            match std::str::from_utf8(body.as_slice()) {
                Ok(text) => match json::parse_json(text) {
                    Ok(root) => root_object(root),
                    Err(_) => Err(Failure::Unparseable),
                },
                Err(_) => Err(Failure::Unparseable),
            }
        },
    }
}

/// Whether a list holds a text.
fn lists(list: &Vec<String>, key: &String) -> (result: bool)
    ensures
        result == config::texts(list@).contains(key@),
{
    let mut i: usize = 0;
    while i < list.len()
        invariant
            i <= list.len(),
            forall|j: int| 0 <= j < i ==> (#[trigger] list@[j])@ != key@,
        decreases list.len() - i,
    {
        if list[i] == *key {
            assert(config::texts(list@)[i as int] == key@);
            return true;
        }
        i += 1;
    }
    assert forall|j: int| 0 <= j < list@.len() implies #[trigger] config::texts(list@)[j] != key@ by {
        assert(list@[j]@ != key@);
    }
    false
}

/// The entries of an object that a list names.
fn pick(object: &serde_json::Map<String, Value>, allow_list: &Vec<String>) -> (picked:
    serde_json::Map<String, Value>)
    requires
        allow_list@.len() > 0,
    ensures
        json::object_view(picked) == allowed(
            json::object_view(*object),
            config::texts(allow_list@),
        ),
{
    let ghost attrs = json::object_view(*object);
    let ghost names = config::texts(allow_list@);
    let entries = json::object_entries(object);
    let mut picked = serde_json::Map::new();
    let mut i: usize = 0;
    while i < entries.len()
        invariant
            i <= entries.len(),
            names == config::texts(allow_list@),
            forall|j: int|
                0 <= j < entries.len() ==> attrs.contains_key((#[trigger] entries[j]).0@)
                    && attrs[entries[j].0@] == json::json_view(*entries[j].1),
            forall|key: Seq<char>| #[trigger]
                json::object_view(picked).contains_key(key) ==> attrs.contains_key(key)
                    && names.contains(key) && json::object_view(picked)[key] == attrs[key],
            forall|j: int|
                0 <= j < i && names.contains((#[trigger] entries[j]).0@) ==> json::object_view(
                    picked,
                ).contains_key(entries[j].0@),
        decreases entries.len() - i,
    {
        let (key, value) = entries[i];
        if lists(allow_list, key) {
            picked.insert(key.clone(), value.clone());
        }
        i += 1;
    }
    assert(json::object_view(picked) =~= allowed(attrs, names));
    picked
}

/// The custom attributes of a document that an allow-list lets through. An attribute set that is
/// missing, or is no object, is the empty one.
pub fn relay(document: &Value, allow_list: &Option<Vec<String>>) -> (attrs: Value)
    ensures
        json::json_view(attrs) == relayed(
            json::json_view(*document),
            match *allow_list {
                Some(list) => config::texts(list@),
                None => Seq::empty(),
            },
        ),
{
    let raw = match json::get_member(document, "custom_attributes") {
        Some(attrs) => if attrs.is_object() {
            attrs.clone()
        } else {
            json::empty_attributes()
        },
        None => json::empty_attributes(),
    };
    match allow_list {
        Some(list) => {
            if list.len() == 0 {
                return raw;
            }
            match raw.as_object() {
                Some(object) => json::object_value(pick(object, list)),
                None => json::empty_attributes(),
            }
        },
        None => raw,
    }
}

} // verus!
