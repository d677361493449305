//! The placeholder branch as a state machine.
//!
//! The machine decides; its driver performs. Each call of `step` takes the
//! current stage and the outcome of the last action and answers with the next
//! stage and the next action: look the key up in the cache, fetch the image
//! from its origin, decode the fetched bytes, insert the placeholder, or
//! respond. Resizing and encoding happen inside the step that receives the
//! decoded image.
//!
//! Decoding is the driver's work, like fetching: image decoders may give up
//! on hostile bytes in ways of their own, and what they make of a picture
//! can depend on the processor they run on. The machine is exact about
//! everything that follows from whichever outcome the driver reports.

use vstd::prelude::*;
use crate::encode::{bytes_of, generate_placeholder, placeholder_of};
use crate::error::PipelineError;
use crate::raster::{DecodedImage, Raster};
use crate::response::{cache_control, cache_control_value, error_response, error_response_of,
    not_found_response, not_found_response_of, placeholder_response, placeholder_response_of,
    CacheStatus, Response, ResponseModel, CACHE_TTL_SECS};
use crate::route::{origin_query, origin_query_of, route, route_of, Request, RequestModel, Route,
    RouteModel};
use crate::text::{opt_bytes, to_vec};

verus! {

/// What a cache lookup came back with.
#[derive(Debug, PartialEq, Eq)]
pub enum LookupOutcome {
    /// The key is cached with these bytes.
    Hit(Vec<u8>),
    /// The key is not cached.
    Miss,
    /// The cache could not be asked.
    Failed,
}

/// What the image origin came back with.
#[derive(Debug, PartialEq, Eq)]
pub enum OriginOutcome {
    /// No reply: the transport failed or timed out.
    Unreachable,
    /// A reply with its status code and body.
    Replied { status: u16, body: Vec<u8> },
}

/// What a cache insert came back with.
#[derive(Clone, Copy, Debug, PartialEq, Eq, Structural)]
pub enum InsertOutcome {
    Stored,
    Failed,
}

/// What happened since the last step.
#[derive(Debug, PartialEq, Eq)]
pub enum Event {
    /// A request arrived.
    Arrived(Request),
    /// The cache lookup finished.
    LookedUp(LookupOutcome),
    /// The origin fetch finished.
    Fetched(OriginOutcome),
    /// The fetched bytes were decoded: the image, or `None` when they are
    /// corrupt or in no supported format.
    Decoded(Option<DecodedImage>),
    /// The cache insert finished.
    Inserted(InsertOutcome),
}

/// Where the handling of a request stands.
#[derive(Debug, PartialEq, Eq)]
pub enum Stage {
    /// Waiting for the request.
    Routing,
    /// Waiting for the cache lookup of `key`.
    CacheCheck { key: Vec<u8>, query: Option<Vec<u8>> },
    /// Waiting for the origin's reply.
    Fetching { key: Vec<u8> },
    /// Waiting for the fetched bytes to be decoded.
    Decoding { key: Vec<u8> },
    /// Waiting for the cache insert of the fresh placeholder.
    Storing { payload: Vec<u8> },
    /// The request has been answered or handed on.
    Done,
}

/// What the driver is to do next.
#[derive(Debug, PartialEq, Eq)]
pub enum Action {
    /// Serve the static landing page.
    ServeStaticPage,
    /// Forward the request to the content origin and put `cache_control`
    /// in place of the `Cache-Control` header of its reply.
    PassThrough { cache_control: Vec<u8> },
    /// Look `key` up in the cache.
    Lookup { key: Vec<u8> },
    /// Fetch `path` with `query` from the image origin.
    Fetch { path: Vec<u8>, query: Vec<u8> },
    /// Decode `body`, whatever image format it is in, into RGBA pixels.
    Decode { body: Vec<u8> },
    /// Insert `payload` under `key` for `ttl_secs` seconds.
    Insert { key: Vec<u8>, payload: Vec<u8>, ttl_secs: u64 },
    /// Send `response`. `error` is the failure it reports, or the cache
    /// failure that was passed over on the way to a successful response and
    /// is to be logged.
    Respond { response: Response, error: Option<PipelineError> },
    /// Nothing: the event was not the one the stage waits for.
    Ignore,
}

/// The content of a lookup outcome.
pub enum LookupModel {
    Hit(Seq<u8>),
    Miss,
    Failed,
}

/// The content of an origin outcome.
pub enum OriginModel {
    Unreachable,
    Replied { status: u16, body: Seq<u8> },
}

/// The content of an event.
pub enum EventModel {
    Arrived(RequestModel),
    LookedUp(LookupModel),
    Fetched(OriginModel),
    Decoded(Option<Raster>),
    Inserted(InsertOutcome),
}

/// The content of a stage.
pub enum StageModel {
    Routing,
    CacheCheck { key: Seq<u8>, query: Option<Seq<u8>> },
    Fetching { key: Seq<u8> },
    Decoding { key: Seq<u8> },
    Storing { payload: Seq<u8> },
    Done,
}

/// The content of an action.
pub enum ActionModel {
    ServeStaticPage,
    PassThrough { cache_control: Seq<u8> },
    Lookup { key: Seq<u8> },
    Fetch { path: Seq<u8>, query: Seq<u8> },
    Decode { body: Seq<u8> },
    Insert { key: Seq<u8>, payload: Seq<u8>, ttl_secs: u64 },
    Respond { response: ResponseModel, error: Option<PipelineError> },
    Ignore,
}

impl View for LookupOutcome {
    type V = LookupModel;

    open spec fn view(&self) -> LookupModel {
        match self {
            LookupOutcome::Hit(bytes) => LookupModel::Hit(bytes@),
            LookupOutcome::Miss => LookupModel::Miss,
            LookupOutcome::Failed => LookupModel::Failed,
        }
    }
}

impl View for OriginOutcome {
    type V = OriginModel;

    open spec fn view(&self) -> OriginModel {
        match self {
            OriginOutcome::Unreachable => OriginModel::Unreachable,
            OriginOutcome::Replied { status, body } => OriginModel::Replied {
                status: *status,
                body: body@,
            },
        }
    }
}

/// The content of an optional image.
pub open spec fn opt_raster(o: Option<DecodedImage>) -> Option<Raster> {
    match o {
        Some(img) => Some(img@),
        None => None,
    }
}

impl View for Event {
    type V = EventModel;

    open spec fn view(&self) -> EventModel {
        match self {
            Event::Arrived(request) => EventModel::Arrived(request@),
            Event::LookedUp(outcome) => EventModel::LookedUp(outcome@),
            Event::Fetched(outcome) => EventModel::Fetched(outcome@),
            Event::Decoded(image) => EventModel::Decoded(opt_raster(*image)),
            Event::Inserted(outcome) => EventModel::Inserted(*outcome),
        }
    }
}

impl View for Stage {
    type V = StageModel;

    open spec fn view(&self) -> StageModel {
        match self {
            Stage::Routing => StageModel::Routing,
            Stage::CacheCheck { key, query } => StageModel::CacheCheck {
                key: key@,
                query: opt_bytes(*query),
            },
            Stage::Fetching { key } => StageModel::Fetching { key: key@ },
            Stage::Decoding { key } => StageModel::Decoding { key: key@ },
            Stage::Storing { payload } => StageModel::Storing { payload: payload@ },
            Stage::Done => StageModel::Done,
        }
    }
}

impl View for Action {
    type V = ActionModel;

    open spec fn view(&self) -> ActionModel {
        match self {
            Action::ServeStaticPage => ActionModel::ServeStaticPage,
            Action::PassThrough { cache_control } => ActionModel::PassThrough {
                cache_control: cache_control@,
            },
            Action::Lookup { key } => ActionModel::Lookup { key: key@ },
            Action::Fetch { path, query } => ActionModel::Fetch { path: path@, query: query@ },
            Action::Decode { body } => ActionModel::Decode { body: body@ },
            Action::Insert { key, payload, ttl_secs } => ActionModel::Insert {
                key: key@,
                payload: payload@,
                ttl_secs: *ttl_secs,
            },
            Action::Respond { response, error } => ActionModel::Respond {
                response: response@,
                error: *error,
            },
            Action::Ignore => ActionModel::Ignore,
        }
    }
}

/// A status code in the success class.
pub open spec fn is_success(status: u16) -> bool {
    200 <= status <= 299
}

/// The body the origin delivered, or `UpstreamUnavailable` when it did not
/// reply or replied with a status outside the success class.
pub open spec fn origin_body_of(outcome: OriginModel) -> Result<Seq<u8>, PipelineError> {
    match outcome {
        OriginModel::Replied { status, body } => if is_success(status) {
            Ok(body)
        } else {
            Err(PipelineError::UpstreamUnavailable)
        },
        OriginModel::Unreachable => Err(PipelineError::UpstreamUnavailable),
    }
}

/// The placeholder that a decode outcome leads to, or the error that ends
/// the request: `DecodeError` when nothing was decoded.
pub open spec fn decoded_placeholder(image: Option<Raster>) -> Result<Seq<u8>, PipelineError> {
    match image {
        Some(img) => placeholder_of(img),
        None => Err(PipelineError::DecodeError),
    }
}

/// The directive put on replies that are passed through: the same
/// long-lived one that placeholders carry.
pub open spec fn pass_through_cache_control() -> Seq<u8> {
    cache_control_value(CACHE_TTL_SECS as nat)
}

/// The error to log after an insert, if any.
pub open spec fn insert_error(outcome: InsertOutcome) -> Option<PipelineError> {
    match outcome {
        InsertOutcome::Stored => None,
        InsertOutcome::Failed => Some(PipelineError::CacheError),
    }
}

/// The transition function: the next stage and the action for a stage and an event.
pub open spec fn next(stage: StageModel, event: EventModel) -> (StageModel, ActionModel) {
    match (stage, event) {
        (StageModel::Routing, EventModel::Arrived(request)) => match route_of(
            request.method,
            request.path,
        ) {
            RouteModel::StaticPage => (StageModel::Done, ActionModel::ServeStaticPage),
            RouteModel::Placeholder { key } => (
                StageModel::CacheCheck { key, query: request.query },
                ActionModel::Lookup { key },
            ),
            RouteModel::PassThrough => (
                StageModel::Done,
                ActionModel::PassThrough { cache_control: pass_through_cache_control() },
            ),
            RouteModel::NotFound => (
                StageModel::Done,
                ActionModel::Respond { response: not_found_response_of(), error: None },
            ),
        },
        (StageModel::CacheCheck { key, query }, EventModel::LookedUp(outcome)) => match outcome {
            LookupModel::Hit(bytes) => (
                StageModel::Done,
                ActionModel::Respond {
                    response: placeholder_response_of(bytes, CacheStatus::Hit),
                    error: None,
                },
            ),
            _ => (
                StageModel::Fetching { key },
                ActionModel::Fetch { path: key, query: origin_query_of(query) },
            ),
        },
        (StageModel::Fetching { key }, EventModel::Fetched(outcome)) => match origin_body_of(
            outcome,
        ) {
            Ok(body) => (StageModel::Decoding { key }, ActionModel::Decode { body }),
            Err(e) => (
                StageModel::Done,
                ActionModel::Respond { response: error_response_of(e), error: Some(e) },
            ),
        },
        (StageModel::Decoding { key }, EventModel::Decoded(image)) => match decoded_placeholder(
            image,
        ) {
            Ok(payload) => (
                StageModel::Storing { payload },
                ActionModel::Insert { key, payload, ttl_secs: CACHE_TTL_SECS },
            ),
            Err(e) => (
                StageModel::Done,
                ActionModel::Respond { response: error_response_of(e), error: Some(e) },
            ),
        },
        (StageModel::Storing { payload }, EventModel::Inserted(outcome)) => (
            StageModel::Done,
            ActionModel::Respond {
                response: placeholder_response_of(payload, CacheStatus::Miss),
                error: insert_error(outcome),
            },
        ),
        _ => (stage, ActionModel::Ignore),
    }
}

/// Takes the body out of an origin outcome.
///
/// Fails with `UpstreamUnavailable` exactly when the origin did not reply or
/// replied with a status outside 200 to 299.
pub fn origin_body(outcome: OriginOutcome) -> (r: Result<Vec<u8>, PipelineError>)
    ensures
        bytes_of(r) == origin_body_of(outcome@),
{
    match outcome {
        OriginOutcome::Replied { status, body } => {
            if 200 <= status && status <= 299 {
                Ok(body)
            } else {
                Err(PipelineError::UpstreamUnavailable)
            }
        },
        OriginOutcome::Unreachable => Err(PipelineError::UpstreamUnavailable),
    }
}

/// The first stage of every request.
pub fn start() -> (stage: Stage)
    ensures
        stage@ == StageModel::Routing,
{
    Stage::Routing
}

/// Advances the machine by one event.
pub fn step(stage: Stage, event: Event) -> (r: (Stage, Action))
    ensures
        (r.0@, r.1@) == next(stage@, event@),
{
    match (stage, event) {
        (Stage::Routing, Event::Arrived(request)) => {
            let Request { method, path, query } = request;
            match route(method, path.as_slice()) {
                Route::StaticPage => (Stage::Done, Action::ServeStaticPage),
                Route::Placeholder { key } => {
                    let lookup_key = to_vec(key.as_slice());
                    (Stage::CacheCheck { key, query }, Action::Lookup { key: lookup_key })
                },
                Route::PassThrough => (
                    Stage::Done,
                    Action::PassThrough { cache_control: cache_control(CACHE_TTL_SECS) },
                ),
                Route::NotFound => (
                    Stage::Done,
                    Action::Respond { response: not_found_response(), error: None },
                ),
            }
        },
        (Stage::CacheCheck { key, query }, Event::LookedUp(outcome)) => {
            match outcome {
                LookupOutcome::Hit(bytes) => (
                    Stage::Done,
                    Action::Respond {
                        response: placeholder_response(bytes, CacheStatus::Hit),
                        error: None,
                    },
                ),
                _ => {
                    let path = to_vec(key.as_slice());
                    let origin_query = origin_query(&query);
                    (Stage::Fetching { key }, Action::Fetch { path, query: origin_query })
                },
            }
        },
        (Stage::Fetching { key }, Event::Fetched(outcome)) => {
            match origin_body(outcome) {
                Ok(body) => (Stage::Decoding { key }, Action::Decode { body }),
                Err(e) => (
                    Stage::Done,
                    Action::Respond { response: error_response(e), error: Some(e) },
                ),
            }
        },
        (Stage::Decoding { key }, Event::Decoded(image)) => {
            match image {
                Some(img) => {
                    let payload = generate_placeholder(img);
                    let stored = to_vec(payload.as_slice());
                    (
                        Stage::Storing { payload },
                        Action::Insert { key, payload: stored, ttl_secs: CACHE_TTL_SECS },
                    )
                },
                None => (
                    Stage::Done,
                    Action::Respond {
                        response: error_response(PipelineError::DecodeError),
                        error: Some(PipelineError::DecodeError),
                    },
                ),
            }
        },
        (Stage::Storing { payload }, Event::Inserted(outcome)) => {
            let error = match outcome {
                InsertOutcome::Stored => None,
                InsertOutcome::Failed => Some(PipelineError::CacheError),
            };
            (
                Stage::Done,
                Action::Respond {
                    response: placeholder_response(payload, CacheStatus::Miss),
                    error,
                },
            )
        },
        (stage, _) => (stage, Action::Ignore),
    }
}

} // verus!
