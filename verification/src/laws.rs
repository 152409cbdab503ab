//! What holds of the policy as a whole.
use crate::attributes;
use crate::attributes::{Failure, Reply};
use crate::auth;
use crate::auth::Status;
use crate::cache;
use crate::config::Settings;
use crate::enrich;
use crate::enrich::{SessionView, StepView, VerdictView, WriteView};
use crate::json;
use crate::json::Json;
use crate::text;
use crate::token;
use vstd::prelude::*;
use vstd::set_lib::*;
use vstd::string::*;

verus! {

/// How many more times the outside is asked after a step, at most.
pub open spec fn rank(step: StepView) -> nat {
    match step {
        StepView::Lookup(_) => 5,
        StepView::Fetch(_, _) => 4,
        StepView::Settle(_, _) => 3,
        StepView::Reserve(_, _) => 2,
        StepView::Store(_, _, _) => 1,
        StepView::Done(_) => 0,
    }
}

/// The verdict that a step carries, where it carries one.
pub open spec fn verdict_of(step: StepView) -> Option<VerdictView> {
    match step {
        StepView::Lookup(_) => None,
        StepView::Fetch(_, _) => None,
        StepView::Settle(_, _) => None,
        StepView::Reserve(_, verdict) => Some(verdict),
        StepView::Store(_, _, verdict) => Some(verdict),
        StepView::Done(verdict) => Some(verdict),
    }
}

/// A verdict reports a failure exactly where its status is that of a failure, and carries
/// attributes only where its status says that they are good.
pub open spec fn coherent(verdict: VerdictView) -> bool {
    &&& verdict.failure is Some <==> verdict.status == Status::Failed
    &&& verdict.status != Status::Enriched ==> verdict.attrs == json::empty_object()
}

/// The step once a reply of the endpoint has been settled at the time `now`.
pub open spec fn settled(
    settings: Settings,
    session: SessionView,
    reply: Reply,
    now: u64,
) -> StepView {
    match enrich::reply_step(settings, session, reply) {
        StepView::Settle(session, attrs) => enrich::settle_step(settings, session, attrs, now),
        step => step,
    }
}

/// The keys of a store after the keys in `evict` have been deleted from it and `key` been stored.
pub open spec fn stored_keys(
    keys: Seq<Seq<char>>,
    evict: Seq<Seq<char>>,
    key: Seq<char>,
) -> Set<Seq<char>> {
    keys.to_set().difference(evict.to_set()).insert(key)
}

/// A request without a bearer token ends at once: no lookup, no request to the endpoint, nothing
/// stored, and the status says so.
pub proof fn law_no_token_no_calls(settings: Settings, header: Seq<char>)
    requires
        token::bearer(header).len() == 0,
    ensures
        enrich::begin_step(settings, header) == StepView::Done(enrich::unauthenticated()),
{
}

/// A token carries no white space at its ends.
pub proof fn law_token_is_trimmed(header: Seq<char>)
    requires
        token::bearer(header).len() > 0,
    ensures
        !text::is_white_space(token::bearer(header).first()),
        !text::is_white_space(token::bearer(header).last()),
{
    text::lemma_trimmed(header.skip(token::SCHEME_LEN as int));
}

/// An entry that is still good is served without asking the endpoint.
pub proof fn law_hit_skips_the_endpoint(
    settings: Settings,
    session: SessionView,
    raw: Seq<char>,
    now: u64,
)
    requires
        cache::cached(raw, now) is Some,
    ensures
        enrich::lookup_step(settings, session, Some(raw), now) == StepView::Done(
            enrich::enriched(cache::cached(raw, now)->0),
        ),
{
}

/// Without a cache every token leads to the endpoint, and nothing is stored.
pub proof fn law_disabled_cache_is_not_used(
    settings: Settings,
    header: Seq<char>,
    session: SessionView,
    reply: Reply,
    now: u64,
)
    requires
        !settings.cache_enabled,
    ensures
        token::bearer(header).len() > 0 ==> enrich::begin_step(settings, header) is Fetch,
        settled(settings, session, reply, now) is Done,
{
}

/// What is cached for a token that says when it expires is cached until some later time, which is
/// not past the expiry of the token, nor past the configured time where there is one.
pub proof fn law_never_cached_past_token_expiry(
    settings: Settings,
    session: SessionView,
    reply: Reply,
    now: u64,
)
    requires
        enrich::in_range(settings, session, now),
        session.token_exp is Some,
        settled(settings, session, reply, now) is Reserve,
    ensures
        ({
            let step = settled(settings, session, reply, now);
            let expiry = cache::expiry_at(
                settings.cache_ttl_minutes as nat,
                session.token_exp,
                now,
            )->0;
            &&& step->Reserve_0 == enrich::write_of(session, step->Reserve_1.attrs, expiry)
            &&& now < expiry <= session.token_exp->0
            &&& settings.cache_ttl_minutes > 0 ==> expiry <= now + settings.cache_ttl_minutes * 60
        }),
{
}

/// Nothing is cached for a token that has expired.
pub proof fn law_expired_token_is_not_cached(
    settings: Settings,
    session: SessionView,
    reply: Reply,
    now: u64,
)
    requires
        session.token_exp is Some,
        session.token_exp->0 <= now,
    ensures
        settled(settings, session, reply, now) is Done,
{
}

/// The time for which a result is cached is the lesser of the configured time and the remaining
/// lifetime of the token; either stands alone where the other is missing.
pub proof fn law_effective_ttl(ttl_minutes: nat, token_exp: Option<u64>, now: u64)
    ensures
        token_exp is Some && ttl_minutes > 0 ==> cache::effective_ttl(
            ttl_minutes,
            token_exp,
            now,
        ) == vstd::math::min(
            (ttl_minutes * 60) as int,
            cache::remaining_lifetime(token_exp->0, now) as int,
        ),
        token_exp is Some && ttl_minutes == 0 ==> cache::effective_ttl(
            ttl_minutes,
            token_exp,
            now,
        ) == cache::remaining_lifetime(token_exp->0, now),
        token_exp is None ==> cache::effective_ttl(ttl_minutes, token_exp, now) == ttl_minutes * 60,
{
}

/// What a reply brought is served to later requests for the token until it expires, with the same
/// verdict and without asking the endpoint, whatever the endpoint would say by then; from then on
/// the endpoint is asked again.
///
/// The attributes nest as `after_reply` ensures of those that it hands out, and the text is one
/// that `settle` ensures. Each fraction among the attributes has to read back: a reader of JSON may
/// round one to a neighbouring double. Attributes without fractions meet that.
pub proof fn law_replies_are_served_again(
    settings: Settings,
    session: SessionView,
    reply: Reply,
    now: u64,
    later: u64,
)
    requires
        enrich::in_range(settings, session, now),
        settled(settings, session, reply, now) is Reserve,
        enrich::shallow(settled(settings, session, reply, now)->Reserve_1.attrs),
        json::steady(settled(settings, session, reply, now)->Reserve_1.attrs),
        cache::wraps(
            settled(settings, session, reply, now)->Reserve_0.text,
            settled(settings, session, reply, now)->Reserve_1.attrs,
            cache::expiry_at(settings.cache_ttl_minutes as nat, session.token_exp, now)->0,
        ),
    ensures
        ({
            let stored = settled(settings, session, reply, now);
            let expiry = cache::expiry_at(
                settings.cache_ttl_minutes as nat,
                session.token_exp,
                now,
            )->0;
            let next = enrich::lookup_step(settings, session, Some(stored->Reserve_0.text), later);
            &&& later < expiry ==> next == StepView::Done(stored->Reserve_1)
            &&& later < expiry ==> stored->Reserve_1.status == Status::Enriched
            &&& later >= expiry ==> next == enrich::fetch_step(settings, session)
        }),
{
    let stored = settled(settings, session, reply, now);
    let expiry = cache::expiry_at(settings.cache_ttl_minutes as nat, session.token_exp, now)->0;
    law_stored_attributes_are_served(
        settings,
        session,
        stored->Reserve_0,
        stored->Reserve_1,
        expiry,
        later,
    );
}

/// Attributes without fractions, no deeper than those that a reply brings, read back from the text
/// of their entry.
pub proof fn law_whole_attributes_are_keepable(attrs: Json)
    requires
        enrich::shallow(attrs),
        json::whole(attrs),
    ensures
        cache::keepable(attrs),
{
    json::lemma_whole_is_steady(attrs);
}

/// What is stored is served as long as the entry is good, with the same verdict, where the
/// attributes read back from the text; from then on the request is sent to the endpoint.
///
/// The text is one that `settle` ensures.
pub proof fn law_stored_attributes_are_served(
    settings: Settings,
    session: SessionView,
    write: WriteView,
    verdict: VerdictView,
    expiry: u64,
    later: u64,
)
    requires
        verdict == enrich::enriched(verdict.attrs),
        cache::wraps(write.text, verdict.attrs, expiry),
    ensures
        later < expiry && cache::keepable(verdict.attrs) ==> enrich::lookup_step(
            settings,
            session,
            Some(write.text),
            later,
        ) == StepView::Done(verdict),
        later >= expiry ==> enrich::lookup_step(settings, session, Some(write.text), later)
            == enrich::fetch_step(settings, session),
{
    cache::lemma_wraps(write.text, verdict.attrs, expiry);
    if later >= expiry {
        assert(cache::cached(write.text, later) is None);
    } else if cache::keepable(verdict.attrs) {
        assert(cache::cached(write.text, later) == Some(verdict.attrs));
    }
}

/// Two entries with one text hold the same attributes and the same expiry: different pair-sets or
/// expiries never share a stored text.
///
/// The text is one that `cache_wrap` ensures for either entry.
pub proof fn law_one_text_one_entry(
    raw: Seq<char>,
    attrs: Json,
    expiry: u64,
    other_attrs: Json,
    other_expiry: u64,
)
    requires
        cache::wraps(raw, attrs, expiry),
        cache::wraps(raw, other_attrs, other_expiry),
    ensures
        attrs == other_attrs,
        expiry == other_expiry,
{
    assert(cache::entry_json(attrs, expiry) == cache::entry_json(other_attrs, other_expiry)) by {
        let other = choose|value: serde_json::Value| #[trigger]
            json::json_view(value) == cache::entry_json(other_attrs, other_expiry);
        assert(json::json_text(json::json_view(other)) == raw);
    }
    cache::lemma_entry_members(attrs, expiry);
    cache::lemma_entry_members(other_attrs, other_expiry);
}

/// Once the token has expired for which an entry was stored, no request is served that entry,
/// whatever it holds: each is sent to the endpoint again.
///
/// The text is one that `settle` ensures.
pub proof fn law_not_served_past_token_expiry(
    settings: Settings,
    session: SessionView,
    reply: Reply,
    now: u64,
    later: u64,
)
    requires
        enrich::in_range(settings, session, now),
        session.token_exp is Some,
        session.token_exp->0 <= later,
        settled(settings, session, reply, now) is Reserve,
        cache::wraps(
            settled(settings, session, reply, now)->Reserve_0.text,
            settled(settings, session, reply, now)->Reserve_1.attrs,
            cache::expiry_at(settings.cache_ttl_minutes as nat, session.token_exp, now)->0,
        ),
    ensures
        enrich::lookup_step(
            settings,
            session,
            Some(settled(settings, session, reply, now)->Reserve_0.text),
            later,
        ) == enrich::fetch_step(settings, session),
{
    let stored = settled(settings, session, reply, now);
    let expiry = cache::expiry_at(settings.cache_ttl_minutes as nat, session.token_exp, now)->0;
    law_stored_attributes_are_served(
        settings,
        session,
        stored->Reserve_0,
        stored->Reserve_1,
        expiry,
        later,
    );
}

/// A user without attributes is a result like any other: it is cached too.
pub proof fn law_empty_attributes_are_cached(
    settings: Settings,
    session: SessionView,
    reply: Reply,
    now: u64,
)
    requires
        settings.cache_enabled,
        attributes::reply_document(reply) is Ok,
        attributes::custom_attributes(attributes::reply_document(reply)->Ok_0)
            == json::no_entries(),
        cache::expiry_at(settings.cache_ttl_minutes as nat, session.token_exp, now) is Some,
    ensures
        settled(settings, session, reply, now) is Reserve,
        settled(settings, session, reply, now)->Reserve_1 == enrich::enriched(
            json::empty_object(),
        ),
{
    let document = attributes::reply_document(reply)->Ok_0;
    assert(attributes::relayed(document, settings.attribute_allow_list)->Object_0
        =~= json::no_entries());
}

/// A failure is never cached. It is reported, and leaves no attributes.
pub proof fn law_failures_deny(settings: Settings, session: SessionView, reply: Reply, now: u64)
    requires
        attributes::reply_document(reply) is Err,
    ensures
        settled(settings, session, reply, now) == StepView::Done(
            enrich::failed(attributes::reply_document(reply)->Err_0),
        ),
{
}

/// An answer with another status than 200 ends the request, whatever its body: no attributes, the
/// status of a failure, and a policy violation that names the status. Nothing is stored.
pub proof fn law_other_statuses_deny(
    settings: Settings,
    session: SessionView,
    status: u32,
    body: Vec<u8>,
    now: u64,
)
    requires
        status != 200,
    ensures
        settled(settings, session, Reply::Response { status, body }, now) matches StepView::Done(
            verdict,
        ) && verdict.attrs == Json::Object(Map::empty()) && verdict.status == Status::Failed
            && verdict.failure == Some(Failure::HttpStatus(status)),
{
}

/// An endpoint that does not answer ends the request in the same way.
pub proof fn law_no_answer_denies(settings: Settings, session: SessionView, now: u64)
    ensures
        settled(settings, session, Reply::Unreachable, now) matches StepView::Done(verdict)
            && verdict.attrs == Json::Object(Map::empty()) && verdict.status == Status::Failed
            && verdict.failure == Some(Failure::Unreachable),
{
}

/// The status `ok` comes of no reply but an answer with status 200.
pub proof fn law_only_status_200_enriches(
    settings: Settings,
    session: SessionView,
    reply: Reply,
    now: u64,
)
    requires
        verdict_of(settled(settings, session, reply, now)) is Some,
        verdict_of(settled(settings, session, reply, now))->0.status == Status::Enriched,
    ensures
        reply is Response,
        reply->status == 200,
{
}

/// An entry is stored under the key that the lookup of its session asks the store for, and with
/// the text that it was reserved with.
pub proof fn law_entries_lie_where_they_are_looked_up(
    settings: Settings,
    header: Seq<char>,
    reply: Reply,
    now: u64,
    keys: Option<Seq<Seq<char>>>,
)
    requires
        enrich::begin_step(settings, header) is Lookup,
        settled(settings, enrich::begin_step(settings, header)->Lookup_0, reply, now) is Reserve,
    ensures
        ({
            let session = enrich::begin_step(settings, header)->Lookup_0;
            let reserved = settled(settings, session, reply, now);
            let written = enrich::keys_step(
                settings,
                reserved->Reserve_0,
                reserved->Reserve_1,
                keys,
            );
            &&& reserved->Reserve_0.key == session.key
            &&& written is Store ==> written->Store_1.key == session.key
            &&& written is Store ==> written->Store_1.text == reserved->Reserve_0.text
        }),
{
}

/// Every request to the endpoint goes to the configured path, with the configured timeout and the
/// token of its session, whether the store was asked first or not.
pub proof fn law_fetches_are_as_configured(
    settings: Settings,
    header: Seq<char>,
    session: SessionView,
    found: Option<Seq<char>>,
    now: u64,
    step: StepView,
)
    requires
        step == enrich::begin_step(settings, header) || step == enrich::lookup_step(
            settings,
            session,
            found,
            now,
        ),
        step is Fetch,
    ensures
        step->Fetch_1.path == settings.userinfo_path,
        step->Fetch_1.timeout_ms == settings.timeout_ms,
        step->Fetch_1.authorization == "Bearer "@ + step->Fetch_0.token,
        step->Fetch_1.accept == "application/json"@,
{
}

/// Every verdict is coherent: a policy violation is raised exactly where the status is `error`,
/// and only the status `ok` comes with attributes.
pub proof fn law_verdicts_are_coherent(
    settings: Settings,
    header: Seq<char>,
    session: SessionView,
    found: Option<Seq<char>>,
    reply: Reply,
    write: WriteView,
    verdict: VerdictView,
    keys: Option<Seq<Seq<char>>>,
    now: u64,
)
    requires
        coherent(verdict),
    ensures
        verdict_of(enrich::begin_step(settings, header)) matches Some(v) ==> coherent(v),
        verdict_of(enrich::lookup_step(settings, session, found, now)) matches Some(v) ==> coherent(
            v,
        ),
        verdict_of(settled(settings, session, reply, now)) matches Some(v) ==> coherent(
            v,
        ),
        verdict_of(enrich::keys_step(settings, write, verdict, keys)) == Some(verdict),
{
}

/// The status is `ok` only where an entry that is still good, or a reply of the endpoint with
/// status 200 and a JSON object, has brought the attributes.
pub proof fn law_attributes_come_from_the_endpoint(
    settings: Settings,
    header: Seq<char>,
    session: SessionView,
    found: Option<Seq<char>>,
    reply: Reply,
    now: u64,
)
    ensures
        verdict_of(enrich::begin_step(settings, header)) matches Some(v) ==> v.status
            == Status::Unauthenticated,
        verdict_of(enrich::lookup_step(settings, session, found, now)) matches Some(v) ==> found
            is Some && cache::cached(found->0, now) == Some(v.attrs),
        verdict_of(settled(settings, session, reply, now)) matches Some(v) ==> (v.status
            == Status::Enriched ==> attributes::reply_document(reply) is Ok && v.attrs
            == attributes::relayed(
            attributes::reply_document(reply)->Ok_0,
            settings.attribute_allow_list,
        )),
{
}

/// The status is always handed on, and the pair-set too unless the same property is to hold both.
/// No other property is.
pub proof fn law_status_is_always_written(settings: Settings, attrs: Json, status: Status)
    ensures
        ({
            let handed_on = auth::with_doubles(auth::properties(settings, attrs, status));
            &&& json::member(handed_on, settings.status_property) == Some(
                Json::Str(status.written()),
            )
            &&& settings.properties_key != settings.status_property ==> json::member(
                handed_on,
                settings.properties_key,
            ) == Some(auth::with_doubles(attrs))
            &&& forall|key: Seq<char>|
                key != settings.properties_key && key != settings.status_property ==> #[trigger]
                json::member(handed_on, key) is None
        }),
{
    let props = auth::properties(settings, attrs, status);
    let entries = props->Object_0;
    let handed_on = auth::with_doubles(props)->Object_0;
    assert(entries.contains_key(settings.status_property));
    assert(handed_on[settings.status_property] == auth::with_doubles(
        entries[settings.status_property],
    ));
    assert(entries.contains_key(settings.properties_key));
    assert(handed_on[settings.properties_key] == auth::with_doubles(
        entries[settings.properties_key],
    ));
}

/// An attribute is handed on under its name; one that is a text, as that text.
pub proof fn law_attributes_are_handed_on(attrs: Map<Seq<char>, Json>, key: Seq<char>)
    ensures
        json::member(auth::with_doubles(Json::Object(attrs)), key) is Some <==> attrs.contains_key(
            key,
        ),
        attrs.contains_key(key) && attrs[key] is Str ==> json::member(
            auth::with_doubles(Json::Object(attrs)),
            key,
        ) == Some(attrs[key]),
{
    let handed_on = auth::with_doubles(Json::Object(attrs))->Object_0;
    if attrs.contains_key(key) {
        assert(handed_on[key] == auth::with_doubles(attrs[key]));
    }
}

/// The three statuses are written as three different texts.
pub proof fn law_statuses_differ(a: Status, b: Status)
    requires
        a.written() == b.written(),
    ensures
        a == b,
{
    reveal_strlit("ok");
    reveal_strlit("error");
    reveal_strlit("unauthenticated");
    assert("ok"@.len() != "error"@.len());
    assert("ok"@.len() != "unauthenticated"@.len());
    assert("error"@.len() != "unauthenticated"@.len());
}

/// An allow-list lets through what it names, unchanged, and nothing else; an empty one lets
/// everything through.
pub proof fn law_allow_list(attrs: Map<Seq<char>, Json>, allow_list: Seq<Seq<char>>)
    ensures
        allow_list.len() == 0 ==> attributes::allowed(attrs, allow_list) == attrs,
        attributes::allowed(attrs, allow_list).submap_of(attrs),
        forall|key: Seq<char>|
            allow_list.len() > 0 ==> (#[trigger] attributes::allowed(
                attrs,
                allow_list,
            ).contains_key(key) <==> attrs.contains_key(key) && allow_list.contains(key)),
{
}

/// Two tokens share a cache key exactly where they share their hash: the key tells no more of the
/// token than that.
pub proof fn law_keys_are_hashes(a: Seq<char>, b: Seq<char>)
    ensures
        enrich::session_of(a).key == enrich::session_of(b).key <==> token::token_hash(a)
            == token::token_hash(b),
{
    let hash_a = token::token_hash(a);
    let hash_b = token::token_hash(b);
    if token::hash_key(hash_a) == token::hash_key(hash_b) {
        let prefix = "sf-ui-"@;
        let len = prefix.len() as int;
        assert(token::hash_key(hash_a).skip(len) =~= text::hex(hash_a as nat));
        assert(token::hash_key(hash_b).skip(len) =~= text::hex(hash_b as nat));
        text::lemma_digits_injective(hash_a as nat, hash_b as nat, 16);
    }
}

/// What is stored for a token depends on its hash and its expiry alone: the token itself does not
/// reach the store.
pub proof fn law_the_token_is_not_stored(
    settings: Settings,
    a: SessionView,
    b: SessionView,
    reply: Reply,
    now: u64,
)
    requires
        a.key == b.key,
        a.token_exp == b.token_exp,
    ensures
        settled(settings, a, reply, now) == settled(settings, b, reply, now),
{
}

/// However many keys a store holds, after a write it holds at most as many as configured, and
/// among them the one that was written.
pub proof fn law_cache_is_bounded(
    settings: Settings,
    write: WriteView,
    verdict: VerdictView,
    keys: Seq<Seq<char>>,
)
    requires
        settings.valid(),
    ensures
        enrich::keys_step(settings, write, verdict, Some(keys)) matches StepView::Store(
            evict,
            stored,
            v,
        ) && stored == write && v == verdict && stored_keys(keys, evict, stored.key).finite()
            && stored_keys(keys, evict, stored.key).len() <= settings.max_cache_entries
            && stored_keys(keys, evict, stored.key).contains(write.key),
{
    let max = settings.max_cache_entries as int;
    let key = write.key;
    let others = cache::other_keys(keys, key);
    let gone = cache::excess(others.len(), max) as int;
    let evict = cache::evicted(keys, key, max);
    let kept = others.skip(gone);
    let after = stored_keys(keys, evict, key);
    assert forall|k: Seq<char>| after.contains(k) implies kept.to_set().insert(key).contains(k) by {
        if k != key {
            let listed = choose|i: int| 0 <= i < keys.len() && keys[i] == k;
            keys.lemma_filter_contains(cache::differs_from(key), listed);
            let i = choose|i: int| 0 <= i < others.len() && others[i] == k;
            if i < gone {
                assert(evict[i] == k);
                assert(evict.contains(k));
            } else {
                assert(kept[i - gone] == k);
                assert(kept.contains(k));
            }
        }
    }
    kept.lemma_cardinality_of_set();
    assert(after.subset_of(kept.to_set().insert(key)));
    lemma_len_subset(after, kept.to_set().insert(key));
}

/// Nothing is deleted where there is room, and never the key that is written.
pub proof fn law_evicts_no_more_than_needed(keys: Seq<Seq<char>>, key: Seq<char>, max: int)
    requires
        max >= 1,
    ensures
        cache::other_keys(keys, key).len() < max ==> cache::evicted(keys, key, max)
            == Seq::<Seq<char>>::empty(),
        cache::other_keys(keys, key).len() >= max ==> cache::other_keys(keys, key).len()
            - cache::evicted(keys, key, max).len() + 1 == max,
        !cache::evicted(keys, key, max).contains(key),
{
    let others = cache::other_keys(keys, key);
    assert forall|i: int| 0 <= i < others.len() implies #[trigger] others[i] != key by {
        keys.lemma_filter_pred(cache::differs_from(key), i);
    }
    assert(cache::other_keys(keys, key).len() < max ==> cache::evicted(keys, key, max)
        =~= Seq::<Seq<char>>::empty());
}

/// Each step asks the outside for less than the one before, so a request comes to its verdict,
/// and asks the endpoint once at most.
pub proof fn law_every_request_ends(
    settings: Settings,
    session: SessionView,
    found: Option<Seq<char>>,
    reply: Reply,
    attrs: Json,
    write: WriteView,
    verdict: VerdictView,
    keys: Option<Seq<Seq<char>>>,
    now: u64,
)
    ensures
        rank(enrich::lookup_step(settings, session, found, now)) < rank(StepView::Lookup(session)),
        rank(enrich::reply_step(settings, session, reply)) < rank(
            enrich::fetch_step(settings, session),
        ),
        rank(enrich::settle_step(settings, session, attrs, now)) < rank(
            StepView::Settle(session, attrs),
        ),
        rank(enrich::keys_step(settings, write, verdict, keys)) < rank(
            StepView::Reserve(write, verdict),
        ),
{
}

} // verus!
