//! Classifying a request and deriving what the placeholder branch needs from
//! it: the canonical path, which is the cache key, and the origin query.

use vstd::prelude::*;
use crate::text::{append, ascii, ascii_bytes, find_byte, first_index, opt_bytes, same_bytes,
    starts_with, to_vec};

verus! {

/// The request methods the router tells apart.
#[derive(Clone, Copy, Debug, PartialEq, Eq, Structural)]
pub enum Method {
    Get,
    Head,
    Post,
    Put,
    Delete,
    Options,
    Patch,
    Other,
}

/// The byte `?`, which separates the path of a request target from its query.
pub const QUERY_SEPARATOR: u8 = 63;

/// The number of bytes the placeholder route puts in front of the canonical path.
pub const ROUTE_PREFIX_LEN: usize = 5;

/// The path of the landing page.
pub open spec fn landing_path() -> Seq<u8> {
    ascii("/")
}

/// What a path must start with to belong to the placeholder route.
pub open spec fn placeholder_prefix() -> Seq<u8> {
    ascii("/lqip/")
}

/// What is appended to the query sent to the image origin: the parameter
/// that asks for the cheapest rendition.
pub open spec fn quality_suffix() -> Seq<u8> {
    ascii("&q=1")
}

/// What stands in for the query when the request has none.
pub open spec fn empty_query() -> Seq<u8> {
    ascii("?")
}

/// The path of a request target: everything before the first `?`.
pub open spec fn target_path(target: Seq<u8>) -> Seq<u8> {
    match first_index(target, QUERY_SEPARATOR) {
        Some(i) => target.subrange(0, i),
        None => target,
    }
}

/// The query of a request target: everything after the first `?`, if there is one.
pub open spec fn target_query(target: Seq<u8>) -> Option<Seq<u8>> {
    match first_index(target, QUERY_SEPARATOR) {
        Some(i) => Some(target.subrange(i + 1, target.len() as int)),
        None => None,
    }
}

/// The canonical path of a placeholder request: its path without the route
/// prefix. It is used verbatim as the cache key and as the origin path.
pub open spec fn canonical_path(path: Seq<u8>) -> Seq<u8> {
    path.subrange(ROUTE_PREFIX_LEN as int, path.len() as int)
}

/// The query sent to the image origin: the request's own query, or `?` in
/// its place, followed by the quality parameter.
pub open spec fn origin_query_of(query: Option<Seq<u8>>) -> Seq<u8> {
    match query {
        Some(q) => q + quality_suffix(),
        None => empty_query() + quality_suffix(),
    }
}

/// A request as the router sees it.
#[derive(Debug, PartialEq, Eq)]
pub struct Request {
    pub method: Method,
    pub path: Vec<u8>,
    pub query: Option<Vec<u8>>,
}

/// The content of a request.
pub struct RequestModel {
    pub method: Method,
    pub path: Seq<u8>,
    pub query: Option<Seq<u8>>,
}

impl View for Request {
    type V = RequestModel;

    open spec fn view(&self) -> RequestModel {
        RequestModel { method: self.method, path: self.path@, query: opt_bytes(self.query) }
    }
}

/// The request that a method and a request target stand for.
pub open spec fn request_of(method: Method, target: Seq<u8>) -> RequestModel {
    RequestModel { method, path: target_path(target), query: target_query(target) }
}

impl Request {
    /// Splits a request target at its first `?` into path and query.
    pub fn from_target(method: Method, target: &[u8]) -> (req: Request)
        ensures
            req@ == request_of(method, target@),
    {
        let len: usize = target.len();
        match find_byte(target, QUERY_SEPARATOR) {
            Some(i) => {
                let path = to_vec(vstd::slice::slice_subrange(target, 0, i));
                let query = to_vec(vstd::slice::slice_subrange(target, i + 1, len));
                Request { method, path, query: Some(query) }
            },
            None => Request { method, path: to_vec(target), query: None },
        }
    }
}

/// Where a request goes.
#[derive(Debug, PartialEq, Eq)]
pub enum Route {
    /// The static landing page.
    StaticPage,
    /// The placeholder pipeline, with the canonical path as cache key.
    Placeholder { key: Vec<u8> },
    /// Forwarded to the content origin.
    PassThrough,
    /// No rule matched.
    NotFound,
}

/// The content of a route.
pub enum RouteModel {
    StaticPage,
    Placeholder { key: Seq<u8> },
    PassThrough,
    NotFound,
}

impl View for Route {
    type V = RouteModel;

    open spec fn view(&self) -> RouteModel {
        match self {
            Route::StaticPage => RouteModel::StaticPage,
            Route::Placeholder { key } => RouteModel::Placeholder { key: key@ },
            Route::PassThrough => RouteModel::PassThrough,
            Route::NotFound => RouteModel::NotFound,
        }
    }
}

/// The routing rules, in priority order; the first that matches wins.
pub open spec fn route_of(method: Method, path: Seq<u8>) -> RouteModel {
    if method == Method::Get && path == landing_path() {
        RouteModel::StaticPage
    } else if method == Method::Get && placeholder_prefix().is_prefix_of(path) {
        RouteModel::Placeholder { key: canonical_path(path) }
    } else if method == Method::Get {
        RouteModel::PassThrough
    } else {
        RouteModel::NotFound
    }
}

/// The cache key that a request target leads to, if it is a placeholder request.
pub open spec fn cache_key_of(method: Method, target: Seq<u8>) -> Option<Seq<u8>> {
    match route_of(method, target_path(target)) {
        RouteModel::Placeholder { key } => Some(key),
        _ => None,
    }
}

/// Classifies a request by method and path.
pub fn route(method: Method, path: &[u8]) -> (r: Route)
    ensures
        r@ == route_of(method, path@),
{
    proof {
        reveal_strlit("/");
        reveal_strlit("/lqip/");
    }
    match method {
        Method::Get => {},
        _ => {
            return Route::NotFound;
        },
    }
    let landing = ascii_bytes("/");
    if same_bytes(path, landing.as_slice()) {
        return Route::StaticPage;
    }
    let prefix = ascii_bytes("/lqip/");
    if starts_with(path, prefix.as_slice()) {
        let key = to_vec(vstd::slice::slice_subrange(path, ROUTE_PREFIX_LEN, path.len()));
        Route::Placeholder { key }
    } else {
        Route::PassThrough
    }
}

/// Derives the cache key of a request target: the canonical path if the
/// target belongs to the placeholder route, `None` otherwise. The query
/// plays no part in it.
pub fn cache_key(method: Method, target: &[u8]) -> (key: Option<Vec<u8>>)
    ensures
        opt_bytes(key) == cache_key_of(method, target@),
{
    let request = Request::from_target(method, target);
    match route(request.method, request.path.as_slice()) {
        Route::Placeholder { key } => Some(key),
        _ => None,
    }
}

/// Builds the query for the image origin from the request's own.
pub fn origin_query(query: &Option<Vec<u8>>) -> (out: Vec<u8>)
    ensures
        out@ == origin_query_of(opt_bytes(*query)),
{
    proof {
        reveal_strlit("?");
        reveal_strlit("&q=1");
    }
    let mut out = match query {
        Some(q) => to_vec(q.as_slice()),
        None => ascii_bytes("?"),
    };
    let suffix = ascii_bytes("&q=1");
    append(&mut out, suffix.as_slice());
    out
}

/// A path holds no `?`: that byte ends the path of a request target.
pub open spec fn is_path(p: Seq<u8>) -> bool {
    forall|i: int| 0 <= i < p.len() ==> p[i] != QUERY_SEPARATOR
}

/// The request target of the placeholder route for a canonical path and a query.
pub open spec fn placeholder_target(path: Seq<u8>, query: Seq<u8>) -> Seq<u8> {
    ascii("/lqip") + path + seq![QUERY_SEPARATOR] + query
}

/// A target built from a path and a query splits back into the two.
pub proof fn lemma_target_splits(path: Seq<u8>, query: Seq<u8>)
    requires
        is_path(path),
    ensures
        target_path(path + seq![QUERY_SEPARATOR] + query) == path,
        target_query(path + seq![QUERY_SEPARATOR] + query) == Some(query),
        target_path(path) == path,
        target_query(path) is None,
{
    let target = path + seq![QUERY_SEPARATOR] + query;
    let i = path.len() as int;
    assert(target[i] == QUERY_SEPARATOR);
    assert forall|j: int| 0 <= j < i implies target[j] != QUERY_SEPARATOR by {
        assert(target[j] == path[j]);
    }
    crate::text::lemma_first_index(target, QUERY_SEPARATOR, i);
    crate::text::lemma_first_index_none(path, QUERY_SEPARATOR);
    assert(target.subrange(0, i) =~= path);
    assert(target.subrange(i + 1, target.len() as int) =~= query);
}

/// The cache key of a placeholder request is its canonical path, whatever
/// the query: for a canonical path `p` (it starts with `/` and holds no `?`)
/// the targets `/lqip` + `p` + `?` + `q1` and `/lqip` + `p` + `?` + `q2`, and
/// the target without any query, all have the key `p`.
pub proof fn lemma_cache_key_ignores_query(path: Seq<u8>, q1: Seq<u8>, q2: Seq<u8>)
    requires
        is_path(path),
        path.len() >= 1,
        path[0] == 47u8,
    ensures
        cache_key_of(Method::Get, placeholder_target(path, q1)) == Some(path),
        cache_key_of(Method::Get, placeholder_target(path, q2)) == Some(path),
        cache_key_of(Method::Get, ascii("/lqip") + path) == Some(path),
{
    reveal_strlit("/lqip");
    reveal_strlit("/lqip/");
    reveal_strlit("/");
    let full = ascii("/lqip") + path;
    assert(is_path(full)) by {
        assert forall|i: int| 0 <= i < full.len() implies full[i] != QUERY_SEPARATOR by {
            if i >= 5 {
                assert(full[i] == path[i - 5]);
            }
        }
    }
    lemma_target_splits(full, q1);
    lemma_target_splits(full, q2);
    assert(placeholder_target(path, q1) =~= full + seq![QUERY_SEPARATOR] + q1);
    assert(placeholder_target(path, q2) =~= full + seq![QUERY_SEPARATOR] + q2);
    assert(placeholder_prefix().is_prefix_of(full)) by {
        assert(full.subrange(0, 6) =~= placeholder_prefix());
    }
    assert(full != landing_path());
    assert(canonical_path(full) =~= path);
}

/// The origin query keeps the request's own query, in front of the four
/// bytes of the quality parameter.
pub proof fn lemma_origin_query_keeps_query(query: Seq<u8>)
    ensures
        query.is_prefix_of(origin_query_of(Some(query))),
        origin_query_of(Some(query)).len() == query.len() + 4,
        quality_suffix().is_suffix_of(origin_query_of(Some(query))),
        quality_suffix().is_suffix_of(origin_query_of(None)),
{
    reveal_strlit("&q=1");
    reveal_strlit("?");
    let out = origin_query_of(Some(query));
    assert(out.subrange(0, query.len() as int) =~= query);
    assert(out.subrange(out.len() - 4, out.len() as int) =~= quality_suffix());
    let bare = origin_query_of(None);
    assert(bare.subrange(bare.len() - 4, bare.len() as int) =~= quality_suffix());
}

} // verus!
