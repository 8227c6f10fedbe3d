use vstd::prelude::*;

use crate::response::{BAD_REQUEST, INTERNAL_SERVER_ERROR, NOT_FOUND, Response, ResponseView};

verus! {

/// The page served in place of a 400 response.
pub const BAD_REQUEST_PAGE: &'static str = "./static/errors/400.html";

/// The page served in place of a 404 response.
pub const NOT_FOUND_PAGE: &'static str = "./static/errors/404.html";

/// The page served in place of a 500 response.
pub const INTERNAL_SERVER_ERROR_PAGE: &'static str = "./static/errors/500.html";

/// The statuses whose body is replaced by a static page.
pub open spec fn is_mapped(status: u16) -> bool {
    status == BAD_REQUEST || status == NOT_FOUND || status == INTERNAL_SERVER_ERROR
}

/// The static page for `status`, if it has one.
pub open spec fn page_path_of(status: u16) -> Option<&'static str> {
    if status == BAD_REQUEST {
        Some(BAD_REQUEST_PAGE)
    } else if status == NOT_FOUND {
        Some(NOT_FOUND_PAGE)
    } else if status == INTERNAL_SERVER_ERROR {
        Some(INTERNAL_SERVER_ERROR_PAGE)
    } else {
        None
    }
}

/// What the error page step makes of response `r`, given the contents of
/// the page for its status (`None` where that page could not be read).
///
/// A mapped status keeps its code and gets the page as its body. A page
/// that cannot be read turns into a bare 500, which is not substituted again.
pub open spec fn with_error_page(r: ResponseView, page: Option<Seq<u8>>) -> ResponseView {
    if !is_mapped(r.status) {
        r
    } else {
        match page {
            Some(p) => ResponseView { status: r.status, body: p },
            None => ResponseView { status: INTERNAL_SERVER_ERROR, body: Seq::empty() },
        }
    }
}

/// The contents of a page that was read, or `None`.
pub open spec fn contents_of(page: Option<Vec<u8>>) -> Option<Seq<u8>> {
    match page {
        Some(p) => Some(p@),
        None => None,
    }
}

/// The path of the static page that replaces the body of a response with
/// `status`, or `None` where such a response is left alone.
pub fn error_page_path(status: u16) -> (r: Option<&'static str>)
    ensures
        r == page_path_of(status),
        r is Some <==> is_mapped(status),
{
    if status == BAD_REQUEST {
        Some(BAD_REQUEST_PAGE)
    } else if status == NOT_FOUND {
        Some(NOT_FOUND_PAGE)
    } else if status == INTERNAL_SERVER_ERROR {
        Some(INTERNAL_SERVER_ERROR_PAGE)
    } else {
        None
    }
}

/// Replaces the body of a response with a mapped status by `page`, the
/// contents of the file that `error_page_path` names for it, keeping the
/// status. `page` is `None` where that file could not be read: the result is
/// then a 500 with an empty body.
pub fn apply_error_page(resp: Response, page: Option<Vec<u8>>) -> (r: Response)
    ensures
        r@ == with_error_page(resp@, contents_of(page)),
{
    if error_page_path(resp.status).is_none() {
        resp
    } else {
        match page {
            Some(p) => Response { status: resp.status, body: p },
            None => {
                let r = Response { status: INTERNAL_SERVER_ERROR, body: Vec::new() };
                assert(r@.body =~= Seq::<u8>::empty());
                r
            },
        }
    }
}

/// A response with status 400, 404 or 500 keeps its status and carries the
/// contents of the page configured for that status.
pub proof fn lemma_error_page_keeps_status(r: ResponseView, page: Seq<u8>)
    requires
        is_mapped(r.status),
    ensures
        with_error_page(r, Some(page)).status == r.status,
        with_error_page(r, Some(page)).body == page,
{
}

/// Any other response passes through unchanged.
pub proof fn lemma_unmapped_untouched(r: ResponseView, page: Option<Seq<u8>>)
    requires
        !is_mapped(r.status),
    ensures
        with_error_page(r, page) == r,
{
}

/// The substitution happens at most once: applying the step again, with the
/// same page, changes nothing.
pub proof fn lemma_error_page_once(r: ResponseView, page: Option<Seq<u8>>)
    ensures
        with_error_page(with_error_page(r, page), page) == with_error_page(r, page),
{
}

} // verus!
