//! The responses that the server hands back.
use vstd::prelude::*;

verus! {

/// Status of a successful response.
pub const STATUS_OK: u16 = 200;

/// Status of a response for a path that the bundle does not hold.
pub const STATUS_NOT_FOUND: u16 = 404;

/// A response: status, content type (none for an empty error response) and body.
pub struct Response {
    pub status: u16,
    pub content_type: Option<String>,
    pub body: Vec<u8>,
}

/// The mathematical value of a [`Response`].
pub struct ResponseView {
    pub status: u16,
    pub content_type: Option<Seq<char>>,
    pub body: Seq<u8>,
}

impl View for Response {
    type V = ResponseView;

    open spec fn view(&self) -> ResponseView {
        ResponseView {
            status: self.status,
            content_type: match self.content_type {
                Some(t) => Some(t@),
                None => None,
            },
            body: self.body@,
        }
    }
}

/// The empty 404 response.
pub open spec fn not_found() -> ResponseView {
    ResponseView { status: STATUS_NOT_FOUND, content_type: None, body: Seq::empty() }
}

impl Response {
    /// The empty 404 response.
    pub fn not_found() -> (r: Response)
        ensures
            r@ == not_found(),
    {
        let r = Response { status: STATUS_NOT_FOUND, content_type: None, body: Vec::new() };
        assert(r@.body =~= Seq::<u8>::empty());
        r
    }
}

} // verus!
