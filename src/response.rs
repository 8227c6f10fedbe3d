use vstd::prelude::*;

verus! {

/// Status of a successful response.
pub const OK: u16 = 200;

/// Status of a malformed request.
pub const BAD_REQUEST: u16 = 400;

/// Status of a request for something that does not exist.
pub const NOT_FOUND: u16 = 404;

/// Status of a failure inside the server.
pub const INTERNAL_SERVER_ERROR: u16 = 500;

/// A response as the library decides it: a status code and a body.
pub struct Response {
    pub status: u16,
    pub body: Vec<u8>,
}

/// The mathematical model of a response.
pub struct ResponseView {
    pub status: u16,
    pub body: Seq<u8>,
}

impl View for Response {
    type V = ResponseView;

    open spec fn view(&self) -> ResponseView {
        ResponseView { status: self.status, body: self.body@ }
    }
}

} // verus!
