//! The responses the service gives, as plain values.

use vstd::prelude::*;

verus! {

/// Status of a request that was carried out.
pub const STATUS_OK: u16 = 200;

/// Status of a request whose form was incomplete.
pub const STATUS_BAD_REQUEST: u16 = 400;

/// Status of a request whose subscriber could not be stored.
pub const STATUS_INTERNAL_SERVER_ERROR: u16 = 500;

/// An HTTP response: a status code and the bytes of the body.
#[derive(Debug, PartialEq, Eq)]
pub struct Response {
    pub status: u16,
    pub body: Vec<u8>,
}

/// What a `Response` stands for: its status and its body as a sequence.
pub struct ResponseView {
    pub status: u16,
    pub body: Seq<u8>,
}

impl View for Response {
    type V = ResponseView;

    open spec fn view(&self) -> ResponseView {
        ResponseView { status: self.status, body: self.body@ }
    }
}

/// The response with the given status and no body.
pub open spec fn empty_response(status: u16) -> ResponseView {
    ResponseView { status, body: Seq::empty() }
}

impl Response {
    /// A response with the given status and an empty body.
    pub fn empty(status: u16) -> (response: Response)
        ensures
            response@ == empty_response(status),
    {
        Response { status, body: Vec::new() }
    }

    /// The number of bytes in the body.
    pub fn content_length(&self) -> (length: usize)
        ensures
            length == self@.body.len(),
    {
        self.body.len()
    }
}

} // verus!
