use static_site::error_pages::{
    apply_error_page, error_page_path, BAD_REQUEST_PAGE, INTERNAL_SERVER_ERROR_PAGE,
    NOT_FOUND_PAGE,
};
use static_site::response::Response;

#[test]
fn mapped_statuses_have_pages() {
    assert_eq!(error_page_path(400), Some("./static/errors/400.html"));
    assert_eq!(error_page_path(404), Some("./static/errors/404.html"));
    assert_eq!(error_page_path(500), Some("./static/errors/500.html"));
    assert_eq!(error_page_path(400), Some(BAD_REQUEST_PAGE));
    assert_eq!(error_page_path(404), Some(NOT_FOUND_PAGE));
    assert_eq!(error_page_path(500), Some(INTERNAL_SERVER_ERROR_PAGE));
}

#[test]
fn other_statuses_have_no_page() {
    for s in [0u16, 200, 301, 401, 403, 405, 501, 503, 65535] {
        assert_eq!(error_page_path(s), None);
    }
}

#[test]
fn page_replaces_body_and_keeps_status() {
    for s in [400u16, 404, 500] {
        let r = apply_error_page(
            Response { status: s, body: b"framework default".to_vec() },
            Some(b"<h1>branded</h1>".to_vec()),
        );
        assert_eq!(r.status, s);
        assert_eq!(r.body, b"<h1>branded</h1>".to_vec());
    }
}

#[test]
fn missing_badge_gets_custom_not_found_page() {
    let r = apply_error_page(
        Response { status: 404, body: b"Not Found".to_vec() },
        Some(b"<html>custom 404</html>".to_vec()),
    );
    assert_eq!(r.status, 404);
    assert_eq!(r.body, b"<html>custom 404</html>".to_vec());
}

#[test]
fn unreadable_page_gives_bare_internal_error() {
    let r = apply_error_page(Response { status: 404, body: b"Not Found".to_vec() }, None);
    assert_eq!(r.status, 500);
    assert!(r.body.is_empty());
}

#[test]
fn unmapped_response_passes_through() {
    let r = apply_error_page(
        Response { status: 200, body: b"hello".to_vec() },
        Some(b"page".to_vec()),
    );
    assert_eq!(r.status, 200);
    assert_eq!(r.body, b"hello".to_vec());
    let r = apply_error_page(Response { status: 403, body: Vec::new() }, None);
    assert_eq!(r.status, 403);
    assert!(r.body.is_empty());
}

#[test]
fn substitution_happens_once() {
    let page = Some(b"<p>oops</p>".to_vec());
    let once = apply_error_page(Response { status: 500, body: b"x".to_vec() }, page.clone());
    let twice = apply_error_page(Response { status: once.status, body: once.body.clone() }, page);
    assert_eq!(twice.status, once.status);
    assert_eq!(twice.body, once.body);
}
