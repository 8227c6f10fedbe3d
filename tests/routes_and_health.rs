use static_site::error_pages::apply_error_page;
use static_site::routes::{health_response, routes, Handler};

#[test]
fn health_is_ok_with_empty_body() {
    let r = health_response();
    assert_eq!(r.status, 200);
    assert!(r.body.is_empty());
    let r = apply_error_page(r, Some(b"page".to_vec()));
    assert_eq!(r.status, 200);
    assert!(r.body.is_empty());
}

#[test]
fn route_table_lists_every_route_in_order() {
    let t = routes();
    let paths: Vec<&str> = t.iter().map(|r| r.path).collect();
    assert_eq!(paths, vec!["/", "/contact", "/posts", "/badges", "/health"]);
    assert!(matches!(t[0].handler, Handler::SingleFile { file: "./static/index.html" }));
    assert!(matches!(t[1].handler, Handler::SingleFile { file: "./static/contact.html" }));
    assert!(matches!(t[4].handler, Handler::Liveness));
}

#[test]
fn posts_directory_serves_its_index() {
    let t = routes();
    assert!(matches!(
        t[2].handler,
        Handler::DirectoryTree { dir: "./static/posts", index_file: Some("index.html") }
    ));
}

#[test]
fn badges_directory_has_no_index() {
    let t = routes();
    assert!(matches!(
        t[3].handler,
        Handler::DirectoryTree { dir: "./static/badges", index_file: None }
    ));
}
