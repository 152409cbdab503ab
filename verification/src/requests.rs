//! What becomes of a request, said of the calls that take it from step to step.
//!
//! As in `outcomes`, the laws speak of the fields of what goes into a call and of what comes out.
use crate::attributes;
use crate::attributes::{Failure, Reply};
use crate::auth;
use crate::auth::Status;
use crate::cache;
use crate::config;
use crate::config::Config;
use crate::enrich;
use crate::enrich::{CacheWrite, Lookup, Session, Step, UserinfoRequest, Verdict};
use crate::json;
use crate::json::Json;
use crate::outcomes;
use crate::token;
use pdk::authentication::AuthenticationData;
use serde_json::Value;
use std::collections::hash_map::DefaultHasher;
use vstd::prelude::*;
use vstd::std_specs::hash::*;
use vstd::string::*;

verus! {

/// The two sessions are those of one token.
pub open spec fn same_session(a: Session, b: Session) -> bool {
    a.token@ == b.token@ && a.key@ == b.key@ && a.token_exp == b.token_exp
}

/// The verdict vouches for the attributes: status `ok`, and no policy violation.
pub open spec fn vouches_for(verdict: Verdict, attrs: Json) -> bool {
    &&& json::json_view(verdict.attrs) == attrs
    &&& verdict.status == Status::Enriched
    &&& verdict.failure is None
}

/// The verdict denies: no attributes, status `error`, and a policy violation for the failure.
pub open spec fn denies(verdict: Verdict, failure: Failure) -> bool {
    &&& json::json_view(verdict.attrs) == Json::Object(Map::empty())
    &&& verdict.status == Status::Failed
    &&& verdict.failure == Some(failure)
}

/// The request goes to the configured path, for the token, with the configured timeout.
pub open spec fn asks_for(config: Config, token: Seq<char>, request: UserinfoRequest) -> bool {
    &&& request.path@ == match config.userinfo_path {
        Some(path) => path@,
        None => "/services/oauth2/userinfo"@,
    }
    &&& request.authorization@ == "Bearer "@ + token
    &&& request.accept@ == "application/json"@
    &&& request.timeout_ms == outcomes::timeout_of(config)
}

/// A failure denies.
pub proof fn law_handle_failure(failure: Failure, verdict: Verdict)
    requires
        call_ensures(enrich::handle_failure, (failure,), verdict),
    ensures
        denies(verdict, failure),
{
}

/// A session is looked up where results are cached; otherwise the endpoint is asked.
pub proof fn law_start(config: Config, session: Session, step: Step)
    requires
        call_ensures(enrich::start, (&config, session), step),
    ensures
        outcomes::within_limits(config) ==> call_requires(enrich::start, (&config, session)),
        match step {
            Step::Lookup(looked_up) => outcomes::caches(config) && same_session(looked_up, session),
            Step::Fetch(asked, request) => {
                &&& !outcomes::caches(config)
                &&& same_session(asked, session)
                &&& asks_for(config, session.token@, request)
            },
            _ => false,
        },
{
}

/// A request without a bearer token ends at once, without attributes and without a policy
/// violation. Any other is taken on with the token of its header, the key for the hash of the
/// whole token, and the expiry that the token states: to the store where results are cached,
/// otherwise to the endpoint.
pub proof fn law_begin(config: Config, header: &str, bearer: Seq<char>, step: Step)
    requires
        outcomes::brings_token(header@, bearer),
        call_ensures(enrich::begin, (&config, header), step),
    ensures
        outcomes::within_limits(config) ==> call_requires(enrich::begin, (&config, header)),
        bearer.len() == 0 ==> step is Done,
        bearer.len() > 0 && outcomes::caches(config) ==> step is Lookup,
        bearer.len() > 0 && !outcomes::caches(config) ==> step is Fetch && asks_for(
            config,
            bearer,
            step->Fetch_1,
        ),
        step matches Step::Done(verdict) ==> {
            &&& json::json_view(verdict.attrs) == Json::Object(Map::empty())
            &&& verdict.status == Status::Unauthenticated
            &&& verdict.failure is None
        },
        step is Lookup || step is Fetch ==> {
            let session = if step is Lookup {
                step->Lookup_0
            } else {
                step->Fetch_0
            };
            &&& session.token@ == bearer
            &&& outcomes::is_key(
                session.key@,
                DefaultHasher::spec_finish(token::hashed_str(Seq::empty(), bearer)),
            )
            &&& match session.token_exp {
                Some(secs) => token::jwt_claims(bearer) is Some && outcomes::claims_expiry(
                    token::jwt_claims(bearer)->0,
                    secs,
                ),
                None => token::jwt_claims(bearer) is Some ==> forall|secs: u64|
                    !outcomes::claims_expiry(token::jwt_claims(bearer)->0, secs),
            }
        },
{
    outcomes::lemma_brings_token(header@);
    outcomes::law_one_token_per_header(header@, bearer, token::bearer(header@));
    outcomes::lemma_key(token::token_hash(bearer));
}

/// Attributes from the store are vouched for; without any the endpoint is asked.
pub proof fn law_serve(config: Config, session: Session, attrs: Option<Value>, step: Step)
    requires
        call_ensures(enrich::serve, (&config, session, attrs), step),
    ensures
        outcomes::within_limits(config) ==> call_requires(enrich::serve, (&config, session, attrs)),
        match attrs {
            Some(held) => step is Done && vouches_for(step->Done_0, json::json_view(held)),
            None => step is Fetch && same_session(step->Fetch_0, session) && asks_for(
                config,
                session.token@,
                step->Fetch_1,
            ),
        },
{
}

/// What the store holds is served before its expiry, with the attributes that it holds. Otherwise,
/// and where the store holds no entry or cannot be read, the endpoint is asked.
pub proof fn law_after_lookup(
    config: Config,
    session: Session,
    found: Lookup,
    now: u64,
    step: Step,
)
    requires
        call_ensures(enrich::after_lookup, (&config, session, found, now), step),
    ensures
        outcomes::within_limits(config) ==> call_requires(enrich::after_lookup, (&config, session, found, now)),
        match step {
            Step::Done(verdict) => found is Found && exists|expiry: u64|
                now < expiry && #[trigger] outcomes::reads_as_entry(
                    found->Found_0@,
                    json::json_view(verdict.attrs),
                    expiry,
                ) && verdict.status == Status::Enriched && verdict.failure is None,
            Step::Fetch(asked, request) => {
                &&& same_session(asked, session)
                &&& asks_for(config, session.token@, request)
                &&& found is Found ==> forall|held: Json, expiry: u64| #[trigger]
                    outcomes::reads_as_entry(found->Found_0@, held, expiry) ==> expiry <= now
            },
            _ => false,
        },
{
    if let Step::Done(verdict) = step {
        let raw = found->Found_0@;
        let expiry = cache::entry_expiry(json::json_of_text(raw)->0);
        assert(outcomes::reads_as_entry(raw, json::json_view(verdict.attrs), expiry));
    }
}

/// Every request that is sent to the endpoint goes to the configured path, with the token of its
/// session behind `Bearer` and with the configured timeout, whichever call it comes from.
pub proof fn law_every_fetch_asks_as_configured(
    config: Config,
    header: &str,
    session: Session,
    attrs: Option<Value>,
    found: Lookup,
    now: u64,
    step: Step,
)
    requires
        call_ensures(enrich::begin, (&config, header), step) || call_ensures(
            enrich::start,
            (&config, session),
            step,
        ) || call_ensures(enrich::serve, (&config, session, attrs), step) || call_ensures(
            enrich::after_lookup,
            (&config, session, found, now),
            step,
        ),
        step is Fetch,
    ensures
        step->Fetch_1.path@ == match config.userinfo_path {
            Some(path) => path@,
            None => "/services/oauth2/userinfo"@,
        },
        step->Fetch_1.authorization@ == "Bearer "@ + step->Fetch_0.token@,
        step->Fetch_1.accept@ == "application/json"@,
        step->Fetch_1.timeout_ms == match config.timeout_ms {
            Some(ms) => ms as int,
            None => 5000,
        },
{
}

/// The document of a reply is relayed; a failure denies.
pub proof fn law_relay_document(
    config: Config,
    session: Session,
    document: Result<Value, Failure>,
    step: Step,
)
    requires
        call_ensures(enrich::relay_document, (&config, session, document), step),
    ensures
        match document {
            Ok(document) => step is Settle && same_session(step->Settle_0, session)
                && outcomes::relays(
                json::json_view(document),
                config.attribute_allow_list,
                json::json_view(step->Settle_1),
            ),
            Err(failure) => step is Done && denies(step->Done_0, failure),
        },
{
    if let Ok(document) = document {
        outcomes::lemma_relays(
            json::json_view(document),
            config.attribute_allow_list,
            config@.attribute_allow_list,
        );
    }
}

/// Only an answer with status 200 whose body is a JSON object brings attributes: those of its
/// custom attributes that the allow-list lets through. Anything else ends the request at once: it
/// is denied, with the failure that it was, and nothing is stored.
pub proof fn law_after_reply(config: Config, session: Session, reply: Reply, step: Step)
    requires
        call_ensures(enrich::after_reply, (&config, session, &reply), step),
    ensures
        match reply {
            Reply::Unreachable => step is Done && denies(step->Done_0, Failure::Unreachable),
            Reply::Response { status, body } => if status != 200 {
                step is Done && denies(step->Done_0, Failure::HttpStatus(status))
            } else {
                match step {
                    Step::Settle(settled, attrs) => {
                        &&& same_session(settled, session)
                        &&& exists|document: Json| #[trigger]
                            outcomes::body_reads_as(body@, document) && outcomes::relays(
                                document,
                                config.attribute_allow_list,
                                json::json_view(attrs),
                            )
                    },
                    Step::Done(verdict) => {
                        &&& denies(verdict, Failure::Unparseable)
                        &&& forall|document: Json| !outcomes::body_reads_as(body@, document)
                    },
                    _ => false,
                }
            },
        },
{
    if let Reply::Response { status, body } = reply {
        if attributes::reply_document(reply) is Ok {
            let document = attributes::reply_document(reply)->Ok_0;
            assert(outcomes::body_reads_as(body@, document));
            outcomes::lemma_relays(
                document,
                config.attribute_allow_list,
                config@.attribute_allow_list,
            );
        }
    }
}

/// A result can be settled exactly where the configuration keeps its limits and, where results are
/// cached, their expiry fits in 64 bits.
pub proof fn law_check_range(config: Config, session: Session, now: u64, result: bool)
    requires
        call_ensures(enrich::check_range, (&config, &session, now), result),
    ensures
        result <==> outcomes::within_limits(config) && (outcomes::caches(config)
            ==> outcomes::time_fits(outcomes::minutes_of(config), session.token_exp, now)),
{
}

/// Attributes that the endpoint has vouched for are stored where results are cached and there is a
/// time until which they may be: under the key of the session, in an entry with that time. The
/// verdict vouches for them either way.
pub proof fn law_settle(config: Config, session: Session, attrs: Value, now: u64, step: Step)
    requires
        outcomes::within_limits(config),
        outcomes::caches(config) ==> outcomes::time_fits(
            outcomes::minutes_of(config),
            session.token_exp,
            now,
        ),
        call_ensures(enrich::settle, (&config, session, attrs, now), step),
    ensures
        call_requires(enrich::settle, (&config, session, attrs, now)),
        match step {
            Step::Reserve(write, verdict) => {
                &&& outcomes::caches(config)
                &&& write.key@ == session.key@
                &&& exists|expiry: u64| #[trigger]
                    outcomes::is_expiry(
                        outcomes::minutes_of(config),
                        session.token_exp,
                        now,
                        Some(expiry),
                    ) && write.text@ == json::json_text(
                        Json::Object(
                            Map::empty().insert("exp"@, Json::Int(expiry as int)).insert(
                                "v"@,
                                json::json_view(attrs),
                            ),
                        ),
                    )
                &&& vouches_for(verdict, json::json_view(attrs))
            },
            Step::Done(verdict) => {
                &&& outcomes::caches(config) ==> outcomes::is_expiry(
                    outcomes::minutes_of(config),
                    session.token_exp,
                    now,
                    None,
                )
                &&& vouches_for(verdict, json::json_view(attrs))
            },
            _ => false,
        },
{
    if step is Reserve {
        let expiry = cache::expiry_at(
            config@.cache_ttl_minutes as nat,
            session.token_exp,
            now,
        )->0;
        assert(outcomes::is_expiry(
            outcomes::minutes_of(config),
            session.token_exp,
            now,
            Some(expiry),
        ));
    }
}

/// The entry is stored as it was handed in once room has been made for its key, and is not stored
/// where the keys could not be listed. The verdict stands either way.
pub proof fn law_after_keys(
    config: Config,
    write: CacheWrite,
    verdict: Verdict,
    keys: Option<Vec<String>>,
    step: Step,
)
    requires
        outcomes::within_limits(config),
        call_ensures(enrich::after_keys, (&config, write, verdict, &keys), step),
    ensures
        call_requires(enrich::after_keys, (&config, write, verdict, &keys)),
        match keys {
            Some(list) => {
                &&& step is Store
                &&& outcomes::makes_room(
                    list@.map_values(|s: String| s@),
                    write.key@,
                    outcomes::entries_of(config),
                    step->Store_0@.map_values(|s: String| s@),
                )
                &&& step->Store_1.key@ == write.key@
                &&& step->Store_1.text@ == write.text@
                &&& json::json_view(step->Store_2.attrs) == json::json_view(verdict.attrs)
                &&& step->Store_2.status == verdict.status
                &&& step->Store_2.failure == verdict.failure
            },
            None => {
                &&& step is Done
                &&& json::json_view(step->Done_0.attrs) == json::json_view(verdict.attrs)
                &&& step->Done_0.status == verdict.status
                &&& step->Done_0.failure == verdict.failure
            },
        },
{
    if let Some(list) = keys {
        let listed = config::texts(list@);
        outcomes::lemma_makes_room(listed, write.key@, outcomes::entries_of(config));
        assert(listed =~= list@.map_values(|s: String| s@));
        assert(config::texts(step->Store_0@) =~= step->Store_0@.map_values(|s: String| s@));
    }
}

/// A store once the keys in `evict` have been deleted and the entry has been written.
pub open spec fn store_after(
    store: Map<Seq<char>, Seq<char>>,
    evict: Vec<String>,
    write: CacheWrite,
) -> Map<Seq<char>, Seq<char>> {
    store.remove_keys(evict@.map_values(|s: String| s@).to_set()).insert(write.key@, write.text@)
}

/// What a request has stored lies where the next request for its token looks: the lookup of any
/// header that brings the same token finds the text that was stored, whatever else the store held.
pub proof fn law_next_request_finds_the_entry(
    config: Config,
    header: &str,
    session: Session,
    found: Lookup,
    now: u64,
    asked: Step,
    reply: Reply,
    replied: Step,
    settled: Step,
    keys: Option<Vec<String>>,
    written: Step,
    store: Map<Seq<char>, Seq<char>>,
    next_header: &str,
    bearer: Seq<char>,
    next: Step,
)
    requires
        outcomes::brings_token(header@, bearer),
        outcomes::brings_token(next_header@, bearer),
        call_ensures(enrich::begin, (&config, header), Step::Lookup(session)),
        call_ensures(enrich::after_lookup, (&config, session, found, now), asked),
        asked is Fetch,
        call_ensures(enrich::after_reply, (&config, asked->Fetch_0, &reply), replied),
        replied is Settle,
        call_ensures(
            enrich::settle,
            (&config, replied->Settle_0, replied->Settle_1, now),
            settled,
        ),
        settled is Reserve,
        call_ensures(
            enrich::after_keys,
            (&config, settled->Reserve_0, settled->Reserve_1, &keys),
            written,
        ),
        written is Store,
        call_ensures(enrich::begin, (&config, next_header), next),
    ensures
        next is Lookup,
        store_after(store, written->Store_0, written->Store_1).contains_key(next->Lookup_0.key@),
        store_after(store, written->Store_0, written->Store_1)[next->Lookup_0.key@]
            == settled->Reserve_0.text@,
{
    law_begin(config, header, bearer, Step::Lookup(session));
    law_begin(config, next_header, bearer, next);
    outcomes::lemma_brings_token(header@);
    outcomes::lemma_brings_token(next_header@);
    outcomes::law_one_token_per_header(header@, bearer, token::bearer(header@));
    outcomes::law_one_token_per_header(next_header@, bearer, token::bearer(next_header@));
}

/// Once a request has settled and stored its attributes, a later lookup of them ends the request:
/// before their expiry with a verdict that vouches for the same attributes, without the endpoint
/// being asked; from then on the endpoint is asked again. The expiry is past neither the token nor
/// the configured time.
///
/// Each fraction among the attributes has to read back: a reader of JSON may round one to a
/// neighbouring double.
pub proof fn law_stored_attributes_are_served_again(
    config: Config,
    session: Session,
    reply: Reply,
    replied: Step,
    now: u64,
    settled: Step,
    next: Session,
    found: String,
    later: u64,
    served: Step,
) -> (expiry: u64)
    requires
        outcomes::within_limits(config),
        call_ensures(enrich::after_reply, (&config, session, &reply), replied),
        replied is Settle,
        outcomes::time_fits(outcomes::minutes_of(config), session.token_exp, now),
        call_ensures(
            enrich::settle,
            (&config, replied->Settle_0, replied->Settle_1, now),
            settled,
        ),
        settled is Reserve,
        found@ == settled->Reserve_0.text@,
        call_ensures(
            enrich::after_lookup,
            (&config, next, Lookup::Found(found), later),
            served,
        ),
    ensures
        outcomes::is_expiry(
            outcomes::minutes_of(config),
            session.token_exp,
            now,
            Some(expiry),
        ),
        later >= expiry ==> served is Fetch,
        later < expiry && json::steady(json::json_view(replied->Settle_1)) ==> served is Done
            && vouches_for(served->Done_0, json::json_view(replied->Settle_1)),
{
    let attrs = json::json_view(replied->Settle_1);
    let expiry = cache::expiry_at(
        config@.cache_ttl_minutes as nat,
        session.token_exp,
        now,
    )->0;
    law_after_reply(config, session, reply, replied);
    law_settle(config, replied->Settle_0, replied->Settle_1, now, settled);
    cache::lemma_wraps(found@, attrs, expiry);
    assert(later >= expiry ==> cache::cached(found@, later) is None);
    if later < expiry && json::steady(attrs) {
        assert(cache::keepable(attrs));
        assert(cache::cached(found@, later) == Some(attrs));
    }
    expiry
}

/// What is written for a denied request: the identity that was there before, no attributes, and
/// the status `error`.
pub proof fn law_denials_are_written(
    config: Config,
    session: Session,
    reply: Reply,
    step: Step,
    existing: Option<AuthenticationData>,
    data: AuthenticationData,
)
    requires
        !(reply matches Reply::Response { status, .. } && status == 200),
        call_ensures(enrich::after_reply, (&config, session, &reply), step),
        step is Done,
        call_ensures(
            auth::write_auth,
            (&existing, &config, &step->Done_0.attrs, step->Done_0.status),
            data,
        ),
    ensures
        outcomes::holds_properties(
            auth::principal_view(data).properties,
            config,
            Json::Object(Map::empty()),
            Status::Failed,
        ),
        existing is Some ==> auth::principal_view(data).identity == auth::principal_view(
            existing->0,
        ).identity,
{
    law_after_reply(config, session, reply, step);
    outcomes::law_write_auth(existing, config, step->Done_0.attrs, step->Done_0.status, data);
    let attrs = json::json_view(step->Done_0.attrs);
    outcomes::law_documents_are_handed_on(attrs);
    assert(auth::with_doubles(attrs)->Object_0 =~= Map::<Seq<char>, Json>::empty());
}

} // verus!
