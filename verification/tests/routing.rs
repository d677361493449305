use lqip::route::{cache_key, origin_query, route, Method, Request, Route};
use lqip::text::{decimal, find_byte, same_bytes, starts_with};

#[test]
fn landing_page_is_static() {
    assert_eq!(route(Method::Get, b"/"), Route::StaticPage);
}

#[test]
fn placeholder_route_strips_prefix() {
    assert_eq!(
        route(Method::Get, b"/lqip/sunset.jpg"),
        Route::Placeholder { key: b"/sunset.jpg".to_vec() }
    );
    assert_eq!(
        route(Method::Get, b"/lqip/a/b/c.png"),
        Route::Placeholder { key: b"/a/b/c.png".to_vec() }
    );
}

#[test]
fn placeholder_route_with_empty_rest() {
    assert_eq!(route(Method::Get, b"/lqip/"), Route::Placeholder { key: b"/".to_vec() });
}

#[test]
fn prefix_without_slash_is_passed_through() {
    assert_eq!(route(Method::Get, b"/lqip"), Route::PassThrough);
    assert_eq!(route(Method::Get, b"/lqipx/a.jpg"), Route::PassThrough);
}

#[test]
fn other_get_is_passed_through() {
    assert_eq!(route(Method::Get, b"/images/sunset.jpg"), Route::PassThrough);
    assert_eq!(route(Method::Get, b""), Route::PassThrough);
}

#[test]
fn other_methods_are_not_found() {
    for method in [
        Method::Head,
        Method::Post,
        Method::Put,
        Method::Delete,
        Method::Options,
        Method::Patch,
        Method::Other,
    ] {
        assert_eq!(route(method, b"/"), Route::NotFound);
        assert_eq!(route(method, b"/lqip/sunset.jpg"), Route::NotFound);
        assert_eq!(route(method, b"/images/sunset.jpg"), Route::NotFound);
    }
}

#[test]
fn target_splits_at_first_question_mark() {
    let req = Request::from_target(Method::Get, b"/lqip/sunset.jpg?w=2000");
    assert_eq!(req.method, Method::Get);
    assert_eq!(req.path, b"/lqip/sunset.jpg".to_vec());
    assert_eq!(req.query, Some(b"w=2000".to_vec()));

    let req = Request::from_target(Method::Get, b"/a?b?c");
    assert_eq!(req.path, b"/a".to_vec());
    assert_eq!(req.query, Some(b"b?c".to_vec()));
}

#[test]
fn target_without_query() {
    let req = Request::from_target(Method::Post, b"/lqip/sunset.jpg");
    assert_eq!(req.method, Method::Post);
    assert_eq!(req.path, b"/lqip/sunset.jpg".to_vec());
    assert_eq!(req.query, None);
}

#[test]
fn target_with_empty_query() {
    let req = Request::from_target(Method::Get, b"/x?");
    assert_eq!(req.path, b"/x".to_vec());
    assert_eq!(req.query, Some(Vec::new()));
    let req = Request::from_target(Method::Get, b"");
    assert_eq!(req.path, Vec::<u8>::new());
    assert_eq!(req.query, None);
}

fn key_of(target: &[u8]) -> Option<Vec<u8>> {
    cache_key(Method::Get, target)
}

#[test]
fn cache_key_ignores_query() {
    let expected = Some(b"/sunset.jpg".to_vec());
    assert_eq!(key_of(b"/lqip/sunset.jpg?w=2000"), expected);
    assert_eq!(key_of(b"/lqip/sunset.jpg?w=10&h=20"), expected);
    assert_eq!(key_of(b"/lqip/sunset.jpg?"), expected);
    assert_eq!(key_of(b"/lqip/sunset.jpg"), expected);
    assert_eq!(key_of(b"/lqip/sunset.jpg?a?b"), expected);
}

#[test]
fn cache_key_differs_by_path() {
    assert_ne!(key_of(b"/lqip/a.jpg?w=1"), key_of(b"/lqip/b.jpg?w=1"));
    assert_eq!(key_of(b"/other/a.jpg?w=1"), None);
    assert_eq!(key_of(b"/?w=1"), None);
    assert_eq!(cache_key(Method::Post, b"/lqip/a.jpg?w=1"), None);
}

#[test]
fn origin_query_appends_quality() {
    assert_eq!(origin_query(&Some(b"w=2000".to_vec())), b"w=2000&q=1".to_vec());
    assert_eq!(origin_query(&Some(b"q=80".to_vec())), b"q=80&q=1".to_vec());
    assert_eq!(origin_query(&Some(Vec::new())), b"&q=1".to_vec());
}

#[test]
fn origin_query_without_query() {
    assert_eq!(origin_query(&None), b"?&q=1".to_vec());
}

#[test]
fn decimal_writes_digits() {
    assert_eq!(decimal(0), b"0".to_vec());
    assert_eq!(decimal(9), b"9".to_vec());
    assert_eq!(decimal(10), b"10".to_vec());
    assert_eq!(decimal(305), b"305".to_vec());
    assert_eq!(decimal(31_536_000), b"31536000".to_vec());
    assert_eq!(decimal(u64::MAX), b"18446744073709551615".to_vec());
}

#[test]
fn byte_helpers() {
    assert!(starts_with(b"/lqip/a", b"/lqip/"));
    assert!(starts_with(b"abc", b""));
    assert!(!starts_with(b"/lqi", b"/lqip/"));
    assert!(!starts_with(b"/lqiq/a", b"/lqip/"));
    assert!(same_bytes(b"/", b"/"));
    assert!(!same_bytes(b"/", b"/a"));
    assert!(!same_bytes(b"/a", b"/"));
    assert_eq!(find_byte(b"a?b?c", b'?'), Some(1));
    assert_eq!(find_byte(b"?", b'?'), Some(0));
    assert_eq!(find_byte(b"abc", b'?'), None);
    assert_eq!(find_byte(b"", b'?'), None);
}
