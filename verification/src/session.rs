//! What holds of whole runs of the placeholder machine.
//!
//! `run` feeds a sequence of events to the machine and collects the actions;
//! `exchange` plays one request against a cache and an origin that answer the
//! machine's actions faithfully, with the decode outcome given. The lemmas
//! state what no run and no exchange can do: fetch after a hit, store after a
//! failure, answer undecodable bytes with a placeholder.

use vstd::prelude::*;
use crate::encode::{lemma_placeholder_always_encodes, placeholder_of};
use crate::error::PipelineError;
use crate::pipeline::{decoded_placeholder, insert_error, is_success, next, origin_body_of,
    ActionModel, EventModel, InsertOutcome, LookupModel, OriginModel, StageModel};
use crate::raster::Raster;
use crate::response::{error_response_of, placeholder_response_of, CacheStatus, ResponseModel,
    CACHE_TTL_SECS};
use crate::route::RequestModel;

verus! {

/// The actions the machine emits when it is fed `events` from `stage` on.
pub open spec fn run(stage: StageModel, events: Seq<EventModel>) -> Seq<ActionModel>
    decreases events.len(),
{
    if events.len() == 0 {
        Seq::empty()
    } else {
        let (after, action) = next(stage, events[0]);
        seq![action] + run(after, events.drop_first())
    }
}

/// A run emits one action per event.
pub proof fn lemma_run_len(stage: StageModel, events: Seq<EventModel>)
    ensures
        run(stage, events).len() == events.len(),
    decreases events.len(),
{
    if events.len() > 0 {
        lemma_run_len(next(stage, events[0]).0, events.drop_first());
    }
}

/// A run that starts with `event` emits the machine's action for it first
/// and goes on from the stage that follows.
pub proof fn lemma_run_unfold(stage: StageModel, event: EventModel, rest: Seq<EventModel>)
    ensures
        run(stage, seq![event] + rest) == seq![next(stage, event).1] + run(
            next(stage, event).0,
            rest,
        ),
{
    let events = seq![event] + rest;
    assert(events[0] == event);
    assert(events.drop_first() =~= rest);
}

/// Once a request is done the machine ignores whatever comes.
pub proof fn lemma_done_is_final(events: Seq<EventModel>)
    ensures
        forall|i: int|
            0 <= i < events.len() ==> (#[trigger] run(StageModel::Done, events)[i])
                == ActionModel::Ignore,
        run(StageModel::Done, events).len() == events.len(),
    decreases events.len(),
{
    lemma_run_len(StageModel::Done, events);
    if events.len() > 0 {
        lemma_done_is_final(events.drop_first());
        lemma_run_len(StageModel::Done, events.drop_first());
        let tail = run(StageModel::Done, events.drop_first());
        assert forall|i: int| 0 <= i < events.len() implies (#[trigger] run(
            StageModel::Done,
            events,
        )[i]) == ActionModel::Ignore by {
            if i > 0 {
                assert(run(StageModel::Done, events)[i] == tail[i - 1]);
            }
        }
    }
}

/// An action that touches the origin, the decoder or the cache's contents.
pub open spec fn is_work(action: ActionModel) -> bool {
    action is Fetch || action is Decode || action is Insert
}

/// After a step that ends the request, no later action is work.
proof fn lemma_no_work_after_done(
    stage: StageModel,
    event: EventModel,
    rest: Seq<EventModel>,
)
    requires
        next(stage, event).0 == StageModel::Done,
    ensures
        run(stage, seq![event] + rest).len() == rest.len() + 1,
        run(stage, seq![event] + rest)[0] == next(stage, event).1,
        forall|i: int|
            1 <= i < rest.len() + 1 ==> (#[trigger] run(stage, seq![event] + rest)[i])
                == ActionModel::Ignore,
{
    lemma_run_unfold(stage, event, rest);
    lemma_done_is_final(rest);
    let actions = run(stage, seq![event] + rest);
    let tail = run(StageModel::Done, rest);
    assert forall|i: int| 1 <= i < rest.len() + 1 implies (#[trigger] actions[i])
        == ActionModel::Ignore by {
        assert(actions[i] == tail[i - 1]);
    }
}

/// A cache hit answers with exactly the cached bytes and ends the request:
/// whatever events follow, the machine never asks for an origin fetch, a
/// decode or a cache insert.
pub proof fn lemma_hit_never_fetches(
    key: Seq<u8>,
    query: Option<Seq<u8>>,
    cached: Seq<u8>,
    rest: Seq<EventModel>,
)
    ensures
        ({
            let actions = run(
                StageModel::CacheCheck { key, query },
                seq![EventModel::LookedUp(LookupModel::Hit(cached))] + rest,
            );
            &&& actions.len() == rest.len() + 1
            &&& actions[0] == ActionModel::Respond {
                response: placeholder_response_of(cached, CacheStatus::Hit),
                error: None,
            }
            &&& placeholder_response_of(cached, CacheStatus::Hit).body == cached
            &&& forall|i: int| 0 <= i < actions.len() ==> !is_work(#[trigger] actions[i])
        }),
{
    lemma_no_work_after_done(
        StageModel::CacheCheck { key, query },
        EventModel::LookedUp(LookupModel::Hit(cached)),
        rest,
    );
}

/// An origin that is unreachable or replies outside the success class ends
/// the request with the server error for `UpstreamUnavailable`; whatever
/// events follow, nothing is decoded and nothing is ever inserted into the
/// cache.
pub proof fn lemma_upstream_failure_never_stores(
    key: Seq<u8>,
    outcome: OriginModel,
    rest: Seq<EventModel>,
)
    requires
        outcome matches OriginModel::Replied { status, .. } ==> !is_success(status),
    ensures
        ({
            let actions = run(
                StageModel::Fetching { key },
                seq![EventModel::Fetched(outcome)] + rest,
            );
            &&& actions.len() == rest.len() + 1
            &&& actions[0] == ActionModel::Respond {
                response: error_response_of(PipelineError::UpstreamUnavailable),
                error: Some(PipelineError::UpstreamUnavailable),
            }
            &&& error_response_of(PipelineError::UpstreamUnavailable).status == 500
            &&& forall|i: int| 0 <= i < actions.len() ==> !is_work(#[trigger] actions[i])
        }),
{
    lemma_no_work_after_done(StageModel::Fetching { key }, EventModel::Fetched(outcome), rest);
}

/// Bytes that do not decode end the request with the server error for
/// `DecodeError`, never with a placeholder; whatever events follow, nothing
/// is ever inserted into the cache.
pub proof fn lemma_undecodable_never_stores(key: Seq<u8>, rest: Seq<EventModel>)
    ensures
        ({
            let actions = run(
                StageModel::Decoding { key },
                seq![EventModel::Decoded(None)] + rest,
            );
            &&& actions.len() == rest.len() + 1
            &&& actions[0] == ActionModel::Respond {
                response: error_response_of(PipelineError::DecodeError),
                error: Some(PipelineError::DecodeError),
            }
            &&& error_response_of(PipelineError::DecodeError).status == 500
            &&& forall|i: int| 0 <= i < actions.len() ==> !is_work(#[trigger] actions[i])
        }),
{
    lemma_no_work_after_done(StageModel::Decoding { key }, EventModel::Decoded(None), rest);
}

/// A reply in the success class is handed to the decoder as it came.
pub proof fn lemma_success_is_decoded(key: Seq<u8>, status: u16, body: Seq<u8>)
    requires
        is_success(status),
    ensures
        next(
            StageModel::Fetching { key },
            EventModel::Fetched(OriginModel::Replied { status, body }),
        ) == (StageModel::Decoding { key }, ActionModel::Decode { body }),
{
}

/// A decoded image always yields its placeholder: the machine asks for one
/// insert, under the request's key and for the fixed lifetime, of the bytes
/// that bounding and encoding the image give.
pub proof fn lemma_decoded_image_is_stored(key: Seq<u8>, img: Raster)
    requires
        img.well_formed(),
    ensures
        placeholder_of(img) is Ok,
        next(StageModel::Decoding { key }, EventModel::Decoded(Some(img))) == (
            StageModel::Storing { payload: placeholder_of(img)->Ok_0 },
            ActionModel::Insert {
                key,
                payload: placeholder_of(img)->Ok_0,
                ttl_secs: CACHE_TTL_SECS,
            },
        ),
{
    lemma_placeholder_always_encodes(img);
}

/// A failed insert does not fail the request: the fresh placeholder is
/// served all the same, and the cache error is handed to the driver to log.
pub proof fn lemma_insert_failure_is_not_fatal(payload: Seq<u8>, outcome: InsertOutcome)
    ensures
        next(StageModel::Storing { payload }, EventModel::Inserted(outcome)) == (
            StageModel::Done,
            ActionModel::Respond {
                response: placeholder_response_of(payload, CacheStatus::Miss),
                error: insert_error(outcome),
            },
        ),
        placeholder_response_of(payload, CacheStatus::Miss).status == 200,
        placeholder_response_of(payload, CacheStatus::Miss).body == payload,
        outcome == InsertOutcome::Failed ==> insert_error(outcome) == Some(
            PipelineError::CacheError,
        ),
{
}

/// A failed lookup is treated as a miss: both lead to the same fetch.
pub proof fn lemma_lookup_failure_is_a_miss(key: Seq<u8>, query: Option<Seq<u8>>)
    ensures
        next(
            StageModel::CacheCheck { key, query },
            EventModel::LookedUp(LookupModel::Failed),
        ) == next(StageModel::CacheCheck { key, query }, EventModel::LookedUp(LookupModel::Miss)),
        next(
            StageModel::CacheCheck { key, query },
            EventModel::LookedUp(LookupModel::Miss),
        ).1 is Fetch,
{
}

/// The state of the cache: the bytes stored under each key.
pub type CacheModel = Map<Seq<u8>, Seq<u8>>;

/// How one request went: the last action of the machine, the cache
/// afterwards, and how often the origin was asked.
pub struct Exchange {
    pub outcome: ActionModel,
    pub cache: CacheModel,
    pub fetches: nat,
}

/// What the cache answers to a lookup.
pub open spec fn lookup(cache: CacheModel, key: Seq<u8>) -> LookupModel {
    if cache.dom().contains(key) {
        LookupModel::Hit(cache[key])
    } else {
        LookupModel::Miss
    }
}

/// The rest of an exchange once the origin has been asked: the reply is
/// decoded to `decoded`, and an insert overwrites the entry of its key.
pub open spec fn after_fetch(
    cache: CacheModel,
    stage: StageModel,
    origin: OriginModel,
    decoded: Option<Raster>,
) -> Exchange {
    let (s1, a1) = next(stage, EventModel::Fetched(origin));
    match a1 {
        ActionModel::Decode { .. } => {
            let (s2, a2) = next(s1, EventModel::Decoded(decoded));
            match a2 {
                ActionModel::Insert { key, payload, .. } => Exchange {
                    outcome: next(s2, EventModel::Inserted(InsertOutcome::Stored)).1,
                    cache: cache.insert(key, payload),
                    fetches: 1,
                },
                _ => Exchange { outcome: a2, cache, fetches: 1 },
            }
        },
        _ => Exchange { outcome: a1, cache, fetches: 1 },
    }
}

/// One request played against a cache, an origin and a decoder that do what
/// the machine asks: a lookup answers from `cache`, a fetch answers with
/// `origin`, a decode answers with `decoded`, an insert overwrites the entry
/// of its key.
pub open spec fn exchange(
    cache: CacheModel,
    origin: OriginModel,
    decoded: Option<Raster>,
    request: RequestModel,
) -> Exchange {
    let (s1, a1) = next(StageModel::Routing, EventModel::Arrived(request));
    match a1 {
        ActionModel::Lookup { key } => {
            let (s2, a2) = next(s1, EventModel::LookedUp(lookup(cache, key)));
            match a2 {
                ActionModel::Fetch { .. } => after_fetch(cache, s2, origin, decoded),
                _ => Exchange { outcome: a2, cache, fetches: 0 },
            }
        },
        _ => Exchange { outcome: a1, cache, fetches: 0 },
    }
}

/// The response an exchange ended with, if it ended with one.
pub open spec fn response_of(e: Exchange) -> Option<ResponseModel> {
    match e.outcome {
        ActionModel::Respond { response, .. } => Some(response),
        _ => None,
    }
}

/// After a request was answered with a placeholder, the same request is a
/// cache hit: it is answered with status 200 and the very same bytes, the
/// origin is not asked at all, whatever it and the decoder would have said,
/// and the cache stays as it was. The first answer is marked `MISS` if the
/// origin was asked, the second always `HIT`.
pub proof fn lemma_repeat_is_a_hit(
    cache: CacheModel,
    origin: OriginModel,
    decoded: Option<Raster>,
    later_origin: OriginModel,
    later_decoded: Option<Raster>,
    request: RequestModel,
)
    requires
        response_of(exchange(cache, origin, decoded, request)) matches Some(first) && first.status
            == 200,
    ensures
        ({
            let first = exchange(cache, origin, decoded, request);
            let second = exchange(first.cache, later_origin, later_decoded, request);
            let payload = response_of(first)->Some_0.body;
            &&& second.fetches == 0
            &&& second.cache == first.cache
            &&& second.outcome == ActionModel::Respond {
                response: placeholder_response_of(payload, CacheStatus::Hit),
                error: None,
            }
            &&& first.fetches == 1 ==> response_of(first)->Some_0 == placeholder_response_of(
                payload,
                CacheStatus::Miss,
            )
        }),
{
    let first = exchange(cache, origin, decoded, request);
    let (s1, a1) = next(StageModel::Routing, EventModel::Arrived(request));
    if let ActionModel::Lookup { key } = a1 {
        let (s2, a2) = next(s1, EventModel::LookedUp(lookup(cache, key)));
        if a2 is Fetch {
            let (s3, a3) = next(s2, EventModel::Fetched(origin));
            if a3 is Decode {
                let (s4, a4) = next(s3, EventModel::Decoded(decoded));
                if let ActionModel::Insert { key: stored_key, payload, .. } = a4 {
                    assert(stored_key == key);
                    assert(first.cache == cache.insert(key, payload));
                    assert(first.cache.dom().contains(key));
                    assert(first.cache[key] == payload);
                }
            }
        }
    }
}

/// A request that finds its key in the cache is answered with the stored
/// bytes without the origin being asked.
pub proof fn lemma_stored_bytes_are_served(
    cache: CacheModel,
    origin: OriginModel,
    decoded: Option<Raster>,
    request: RequestModel,
)
    requires
        next(StageModel::Routing, EventModel::Arrived(request)).1 matches ActionModel::Lookup {
            key,
        } && cache.dom().contains(key),
    ensures
        ({
            let key = next(StageModel::Routing, EventModel::Arrived(request)).1->Lookup_key;
            let e = exchange(cache, origin, decoded, request);
            &&& e.fetches == 0
            &&& e.cache == cache
            &&& response_of(e) == Some(placeholder_response_of(cache[key], CacheStatus::Hit))
            &&& response_of(e)->Some_0.body == cache[key]
        }),
{
}

/// A request whose fetch or decode fails leaves the cache as it was, and if
/// the origin was asked it is answered with the server error that names the
/// failure: `UpstreamUnavailable` before `DecodeError`.
pub proof fn lemma_failed_exchange_stores_nothing(
    cache: CacheModel,
    origin: OriginModel,
    decoded: Option<Raster>,
    request: RequestModel,
)
    requires
        origin_body_of(origin) is Err || decoded is None,
    ensures
        ({
            let e = exchange(cache, origin, decoded, request);
            let error = if origin_body_of(origin) is Err {
                PipelineError::UpstreamUnavailable
            } else {
                PipelineError::DecodeError
            };
            &&& e.cache == cache
            &&& e.fetches == 1 ==> response_of(e) == Some(error_response_of(error))
            &&& error_response_of(error).status == 500
        }),
{
}

/// The cache changes only through a complete success: if an exchange left a
/// different cache behind, the origin replied with success, the bytes
/// decoded, the only entry that changed is the one of the request's key, it
/// now holds the placeholder of the decoded image, and that placeholder was
/// the answer.
pub proof fn lemma_cache_written_only_on_success(
    cache: CacheModel,
    origin: OriginModel,
    decoded: Option<Raster>,
    request: RequestModel,
)
    requires
        exchange(cache, origin, decoded, request).cache != cache,
    ensures
        ({
            let e = exchange(cache, origin, decoded, request);
            let key = next(StageModel::Routing, EventModel::Arrived(request)).1->Lookup_key;
            &&& next(StageModel::Routing, EventModel::Arrived(request)).1 is Lookup
            &&& origin_body_of(origin) is Ok
            &&& decoded_placeholder(decoded) matches Ok(payload)
            &&& e.cache == cache.insert(key, payload)
            &&& e.fetches == 1
            &&& response_of(e) == Some(placeholder_response_of(payload, CacheStatus::Miss))
        }),
{
}

} // verus!
