use vstd::prelude::*;

use crate::error_pages::with_error_page;
use crate::response::{OK, Response, ResponseView};

verus! {

/// How a route answers.
pub enum Handler {
    /// Serves one fixed file.
    SingleFile { file: &'static str },
    /// Serves the files under `dir`; a request for the directory itself gets
    /// `index_file`, where there is one.
    DirectoryTree { dir: &'static str, index_file: Option<&'static str> },
    /// Answers 200 with an empty body.
    Liveness,
}

/// One entry of the route table: a URL path and its handler.
pub struct Route {
    pub path: &'static str,
    pub handler: Handler,
}

/// The route table of the site.
pub open spec fn route_table() -> Seq<Route> {
    seq![
        Route { path: "/", handler: Handler::SingleFile { file: "./static/index.html" } },
        Route {
            path: "/contact",
            handler: Handler::SingleFile { file: "./static/contact.html" },
        },
        Route {
            path: "/posts",
            handler: Handler::DirectoryTree {
                dir: "./static/posts",
                index_file: Some("index.html"),
            },
        },
        Route {
            path: "/badges",
            handler: Handler::DirectoryTree { dir: "./static/badges", index_file: None },
        },
        Route { path: "/health", handler: Handler::Liveness },
    ]
}

/// The route table, in the order in which the routes are registered.
pub fn routes() -> (r: Vec<Route>)
    ensures
        r@ == route_table(),
{
    let mut r: Vec<Route> = Vec::new();
    r.push(Route { path: "/", handler: Handler::SingleFile { file: "./static/index.html" } });
    r.push(
        Route { path: "/contact", handler: Handler::SingleFile { file: "./static/contact.html" } },
    );
    r.push(
        Route {
            path: "/posts",
            handler: Handler::DirectoryTree {
                dir: "./static/posts",
                index_file: Some("index.html"),
            },
        },
    );
    r.push(
        Route {
            path: "/badges",
            handler: Handler::DirectoryTree { dir: "./static/badges", index_file: None },
        },
    );
    r.push(Route { path: "/health", handler: Handler::Liveness });
    assert(r@ =~= route_table());
    r
}

/// What the liveness endpoint answers: 200 and an empty body.
pub open spec fn health_view() -> ResponseView {
    ResponseView { status: OK, body: Seq::empty() }
}

/// The answer of the liveness endpoint.
pub fn health_response() -> (r: Response)
    ensures
        r@ == health_view(),
{
    let r = Response { status: OK, body: Vec::new() };
    assert(r@.body =~= Seq::<u8>::empty());
    r
}

/// A request to the liveness endpoint that reaches it, which every HTTPS
/// request and every redirected one does, ends in 200 with an empty body:
/// the error page step leaves that answer alone.
pub proof fn lemma_health_is_ok(page: Option<Seq<u8>>)
    ensures
        with_error_page(health_view(), page) == health_view(),
        health_view().status == OK,
        health_view().body.len() == 0,
{
}

} // verus!
