//! The course of one request.
//!
//! A request is taken through a few steps. Each step says what is to be done outside: a lookup in
//! the store, a request to the UserInfo endpoint, a write to the store. What came of it goes into
//! the function for the next step. The last step is a verdict, which is written into the
//! authentication.
use crate::attributes;
use crate::attributes::{Failure, Reply};
use crate::auth::Status;
use crate::cache;
use crate::config;
use crate::config::{Config, Settings};
use crate::json;
use crate::json::Json;
use crate::token;
use serde_json::Value;
use vstd::prelude::*;
use vstd::string::*;

verus! {

/// The token of a request, and what is known of it.
pub struct Session {
    pub token: String,
    /// The key that the token is cached under.
    pub key: String,
    /// When the token expires, where it says so.
    pub token_exp: Option<u64>,
}

/// A request to the UserInfo endpoint.
pub struct UserinfoRequest {
    pub path: String,
    /// The header `authorization`.
    pub authorization: String,
    /// The header `accept`.
    pub accept: String,
    pub timeout_ms: u64,
}

/// An entry for the store.
pub struct CacheWrite {
    pub key: String,
    pub text: String,
}

/// What a lookup in the store brought.
pub enum Lookup {
    Found(String),
    Absent,
    /// The store could not be read.
    Failed,
}

/// How a request ends.
pub struct Verdict {
    /// The pair-set to write.
    pub attrs: Value,
    /// The status to write.
    pub status: Status,
    /// The failure to report as a policy violation, where there is one.
    pub failure: Option<Failure>,
}

/// What is to be done next.
pub enum Step {
    /// Look the key of the session up; go on with `after_lookup`.
    Lookup(Session),
    /// Send the request; go on with `after_reply`.
    Fetch(Session, UserinfoRequest),
    /// Read the clock; go on with `settle`.
    Settle(Session, Value),
    /// List the keys of the store; go on with `after_keys`.
    Reserve(CacheWrite, Verdict),
    /// Delete the keys, then store the entry; the verdict stands whatever comes of it.
    Store(Vec<String>, CacheWrite, Verdict),
    /// Write the verdict into the authentication.
    Done(Verdict),
}

/// A session by its texts.
pub struct SessionView {
    pub token: Seq<char>,
    pub key: Seq<char>,
    pub token_exp: Option<u64>,
}

/// A request by its texts.
pub struct RequestView {
    pub path: Seq<char>,
    pub authorization: Seq<char>,
    pub accept: Seq<char>,
    pub timeout_ms: int,
}

/// An entry by its texts.
pub struct WriteView {
    pub key: Seq<char>,
    pub text: Seq<char>,
}

/// A verdict by its document.
pub struct VerdictView {
    pub attrs: Json,
    pub status: Status,
    pub failure: Option<Failure>,
}

/// A step by what it holds.
pub enum StepView {
    Lookup(SessionView),
    Fetch(SessionView, RequestView),
    Settle(SessionView, Json),
    Reserve(WriteView, VerdictView),
    Store(Seq<Seq<char>>, WriteView, VerdictView),
    Done(VerdictView),
}

impl View for Session {
    type V = SessionView;

    open spec fn view(&self) -> SessionView {
        SessionView { token: self.token@, key: self.key@, token_exp: self.token_exp }
    }
}

impl View for UserinfoRequest {
    type V = RequestView;

    open spec fn view(&self) -> RequestView {
        RequestView {
            path: self.path@,
            authorization: self.authorization@,
            accept: self.accept@,
            timeout_ms: self.timeout_ms as int,
        }
    }
}

impl View for CacheWrite {
    type V = WriteView;

    open spec fn view(&self) -> WriteView {
        WriteView { key: self.key@, text: self.text@ }
    }
}

impl View for Verdict {
    type V = VerdictView;

    open spec fn view(&self) -> VerdictView {
        VerdictView {
            attrs: json::json_view(self.attrs),
            status: self.status,
            failure: self.failure,
        }
    }
}

impl View for Step {
    type V = StepView;

    open spec fn view(&self) -> StepView {
        match *self {
            Step::Lookup(session) => StepView::Lookup(session@),
            Step::Fetch(session, request) => StepView::Fetch(session@, request@),
            Step::Settle(session, attrs) => StepView::Settle(session@, json::json_view(attrs)),
            Step::Reserve(write, verdict) => StepView::Reserve(write@, verdict@),
            Step::Store(evict, write, verdict) => StepView::Store(
                config::texts(evict@),
                write@,
                verdict@,
            ),
            Step::Done(verdict) => StepView::Done(verdict@),
        }
    }
}

impl View for Lookup {
    type V = Option<Seq<char>>;

    /// The entry that was found. A store that could not be read brings none.
    open spec fn view(&self) -> Option<Seq<char>> {
        match *self {
            Lookup::Found(raw) => Some(raw@),
            Lookup::Absent => None,
            Lookup::Failed => None,
        }
    }
}

/// The verdict on attributes that the endpoint has vouched for.
pub open spec fn enriched(attrs: Json) -> VerdictView {
    VerdictView { attrs, status: Status::Enriched, failure: None }
}

/// The verdict on a request without a bearer token.
pub open spec fn unauthenticated() -> VerdictView {
    VerdictView {
        attrs: json::empty_object(),
        status: Status::Unauthenticated,
        failure: None,
    }
}

/// The verdict on a failure: no attributes, so that whatever asks for one is denied.
pub open spec fn failed(failure: Failure) -> VerdictView {
    VerdictView { attrs: json::empty_object(), status: Status::Failed, failure: Some(failure) }
}

/// The session of a token.
pub open spec fn session_of(bearer: Seq<char>) -> SessionView {
    SessionView {
        token: bearer,
        key: token::hash_key(token::token_hash(bearer)),
        token_exp: token::expiry_of_token(bearer),
    }
}

/// The request for the attributes of a token's user.
pub open spec fn userinfo_request(settings: Settings, bearer: Seq<char>) -> RequestView {
    RequestView {
        path: settings.userinfo_path,
        authorization: "Bearer "@ + bearer,
        accept: "application/json"@,
        timeout_ms: settings.timeout_ms as int,
    }
}

/// The step that asks the endpoint.
pub open spec fn fetch_step(settings: Settings, session: SessionView) -> StepView {
    StepView::Fetch(session, userinfo_request(settings, session.token))
}

/// The first step for a session: the store where results are cached, else the endpoint.
pub open spec fn start_step(settings: Settings, session: SessionView) -> StepView {
    if settings.cache_enabled {
        StepView::Lookup(session)
    } else {
        fetch_step(settings, session)
    }
}

/// The first step for a request with this `Authorization` header.
pub open spec fn begin_step(settings: Settings, header: Seq<char>) -> StepView {
    let bearer = token::bearer(header);
    if bearer.len() == 0 {
        StepView::Done(unauthenticated())
    } else {
        start_step(settings, session_of(bearer))
    }
}

/// The step after the attributes of an entry: the verdict where there are any, else the endpoint.
pub open spec fn serve_step(
    settings: Settings,
    session: SessionView,
    attrs: Option<Json>,
) -> StepView {
    match attrs {
        Some(attrs) => StepView::Done(enriched(attrs)),
        None => fetch_step(settings, session),
    }
}

/// The step after a lookup: the verdict where the entry is still good, else the endpoint.
pub open spec fn lookup_step(
    settings: Settings,
    session: SessionView,
    found: Option<Seq<char>>,
    now: u64,
) -> StepView {
    let attrs = match found {
        Some(raw) => cache::cached(raw, now),
        None => None,
    };
    serve_step(settings, session, attrs)
}

/// The step after the document of a reply: its attributes, or the verdict on the failure.
pub open spec fn relay_step(
    settings: Settings,
    session: SessionView,
    document: Result<Json, Failure>,
) -> StepView {
    match document {
        Ok(document) => StepView::Settle(
            session,
            attributes::relayed(document, settings.attribute_allow_list),
        ),
        Err(failure) => StepView::Done(failed(failure)),
    }
}

/// The step after the reply of the endpoint.
pub open spec fn reply_step(settings: Settings, session: SessionView, reply: Reply) -> StepView {
    relay_step(settings, session, attributes::reply_document(reply))
}

/// The settings are valid, and the time that a result may be cached fits in 64 bits, where results
/// are cached.
pub open spec fn in_range(settings: Settings, session: SessionView, now: u64) -> bool {
    settings.valid() && (settings.cache_enabled ==> cache::expiry_fits(
        settings.cache_ttl_minutes as nat,
        session.token_exp,
        now,
    ))
}

/// The attributes nest no deeper than those that a reply brings, so that an entry with them stays
/// within the nesting that a reader of JSON takes.
pub open spec fn shallow(attrs: Json) -> bool {
    json::nested(attrs, (json::MAX_NESTING - 1) as nat)
}

/// The entry for attributes that expire at `expiry`.
pub open spec fn write_of(session: SessionView, attrs: Json, expiry: u64) -> WriteView {
    WriteView {
        key: session.key,
        text: json::json_text(cache::entry_json(attrs, expiry)),
    }
}

/// The step after the endpoint has vouched for attributes: they are cached where they may be.
pub open spec fn settle_step(
    settings: Settings,
    session: SessionView,
    attrs: Json,
    now: u64,
) -> StepView {
    let expiry = if settings.cache_enabled {
        cache::expiry_at(settings.cache_ttl_minutes as nat, session.token_exp, now)
    } else {
        None
    };
    match expiry {
        Some(expiry) => StepView::Reserve(write_of(session, attrs, expiry), enriched(attrs)),
        None => StepView::Done(enriched(attrs)),
    }
}

/// The step after the keys of the store have been listed. Where they could not be, nothing is
/// stored.
pub open spec fn keys_step(
    settings: Settings,
    write: WriteView,
    verdict: VerdictView,
    keys: Option<Seq<Seq<char>>>,
) -> StepView {
    match keys {
        Some(keys) => StepView::Store(
            cache::evicted(keys, write.key, settings.max_cache_entries as int),
            write,
            verdict,
        ),
        None => StepView::Done(verdict),
    }
}

/// The verdict on attributes that the endpoint has vouched for.
fn enriched_with(attrs: Value) -> (verdict: Verdict)
    ensures
        verdict@ == enriched(json::json_view(attrs)),
{
    Verdict { attrs, status: Status::Enriched, failure: None }
}

/// The verdict on an indeterminate outcome. It is never a silent pass-through: the failure is
/// reported, and no attributes are written, so that whatever asks for one is denied.
pub fn handle_failure(failure: Failure) -> (verdict: Verdict)
    ensures
        verdict@ == failed(failure),
{
    Verdict { attrs: json::empty_attributes(), status: Status::Failed, failure: Some(failure) }
}

/// Asks the endpoint.
fn fetch(config: &Config, session: Session) -> (step: Step)
    requires
        config@.valid(),
    ensures
        step@ == fetch_step(config@, session@),
{
    let mut authorization = "Bearer ".to_owned();
    authorization.append(session.token.as_str());
    let request = UserinfoRequest {
        path: config.userinfo_path().to_owned(),
        authorization,
        accept: "application/json".to_owned(),
        timeout_ms: config.timeout_ms() as u64,
    };
    Step::Fetch(session, request)
}

/// The first step for a session.
pub fn start(config: &Config, session: Session) -> (step: Step)
    requires
        config@.valid(),
    ensures
        step@ == start_step(config@, session@),
{
    if config.cache_enabled() {
        Step::Lookup(session)
    } else {
        fetch(config, session)
    }
}

/// The first step for a request with this `Authorization` header, empty where it has none.
pub fn begin(config: &Config, header: &str) -> (step: Step)
    requires
        config@.valid(),
    ensures
        step@ == begin_step(config@, header@),
{
    let bearer = token::bearer_token(header);
    if bearer.as_str().is_empty() {
        return Step::Done(
            Verdict {
                attrs: json::empty_attributes(),
                status: Status::Unauthenticated,
                failure: None,
            },
        );
    }
    let key = token::cache_key(bearer.as_str());
    let token_exp = token::token_expiry(bearer.as_str());
    start(config, Session { token: bearer, key, token_exp })
}

/// The step after the attributes of an entry, `None` where it has none or they have expired.
pub fn serve(config: &Config, session: Session, attrs: Option<Value>) -> (step: Step)
    requires
        config@.valid(),
    ensures
        step@ == serve_step(config@, session@, json::option_view(attrs)),
{
    match attrs {
        Some(attrs) => Step::Done(enriched_with(attrs)),
        None => fetch(config, session),
    }
}

/// The step after a lookup that was answered at the time `now`.
pub fn after_lookup(config: &Config, session: Session, found: Lookup, now: u64) -> (step: Step)
    requires
        config@.valid(),
    ensures
        step@ == lookup_step(config@, session@, found@, now),
{
    match found {
        Lookup::Found(raw) => serve(config, session, cache::cache_unwrap_at(raw.as_str(), now)),
        Lookup::Absent => serve(config, session, None),
        Lookup::Failed => serve(config, session, None),
    }
}

/// The step after the document of a reply.
pub fn relay_document(
    config: &Config,
    session: Session,
    document: Result<Value, Failure>,
) -> (step: Step)
    ensures
        step@ == relay_step(config@, session@, attributes::result_view(document)),
{
    match document {
        Ok(document) => {
            let attrs = attributes::relay(&document, &config.attribute_allow_list);
            Step::Settle(session, attrs)
        },
        Err(failure) => Step::Done(handle_failure(failure)),
    }
}

/// The step after the reply of the endpoint.
pub fn after_reply(config: &Config, session: Session, reply: &Reply) -> (step: Step)
    ensures
        step@ == reply_step(config@, session@, *reply),
        step matches Step::Settle(_, attrs) ==> shallow(json::json_view(attrs)),
{
    let document = attributes::read_reply(reply);
    proof {
        if document is Ok {
            attributes::lemma_relayed_nesting(
                json::json_view(document->Ok_0),
                config@.attribute_allow_list,
                json::MAX_NESTING as nat,
            );
        }
    }
    relay_document(config, session, document)
}

/// Whether the settings are valid, and the time that a result may be cached fits in 64 bits.
pub fn check_range(config: &Config, session: &Session, now: u64) -> (result: bool)
    ensures
        result == in_range(config@, session@, now),
{
    config::configure(config).is_ok() && (!config.cache_enabled() || cache::check_expiry_fits(
        config.cache_ttl_minutes() as u64,
        session.token_exp,
        now,
    ))
}

/// The step after the endpoint has vouched for attributes, at the time `now`.
pub fn settle(config: &Config, session: Session, attrs: Value, now: u64) -> (step: Step)
    requires
        in_range(config@, session@, now),
    ensures
        step@ == settle_step(config@, session@, json::json_view(attrs), now),
        step matches Step::Reserve(write, _) ==> cache::wraps(
            write.text@,
            json::json_view(attrs),
            cache::expiry_at(config@.cache_ttl_minutes as nat, session.token_exp, now)->0,
        ),
{
    if config.cache_enabled() {
        let expiry = cache::cache_expiry(
            config.cache_ttl_minutes() as u64,
            session.token_exp,
            now,
        );
        if let Some(expiry) = expiry {
            let text = cache::cache_wrap(&attrs, expiry);
            return Step::Reserve(CacheWrite { key: session.key, text }, enriched_with(attrs));
        }
    }
    Step::Done(enriched_with(attrs))
}

/// The step after the keys of the store have been listed, `None` where they could not be.
pub fn after_keys(
    config: &Config,
    write: CacheWrite,
    verdict: Verdict,
    keys: &Option<Vec<String>>,
) -> (step: Step)
    requires
        config@.valid(),
    ensures
        step@ == keys_step(
            config@,
            write@,
            verdict@,
            match *keys {
                Some(list) => Some(config::texts(list@)),
                None => None,
            },
        ),
{
    match keys {
        Some(list) => {
            let evict = cache::evictions(list, &write.key, config.max_cache_entries() as u64);
            Step::Store(evict, write, verdict)
        },
        None => Step::Done(verdict),
    }
}

} // verus!
