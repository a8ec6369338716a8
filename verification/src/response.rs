//! The HTTP response that a handler hands back.

use vstd::prelude::*;

verus! {

/// An HTTP response: a status code and a textual body.
#[derive(Debug, Clone, PartialEq, Eq)]
pub struct Response {
    pub status: u16,
    pub body: String,
}

/// What a [`Response`] stands for: its status and the characters of its body.
pub struct ResponseModel {
    pub status: u16,
    pub body: Seq<char>,
}

impl View for Response {
    type V = ResponseModel;

    open spec fn view(&self) -> ResponseModel {
        ResponseModel { status: self.status, body: self.body@ }
    }
}

/// The status of a request that was served.
pub const STATUS_OK: u16 = 200;

/// The status of a request that failed on the server's side.
pub const STATUS_INTERNAL_SERVER_ERROR: u16 = 500;

impl Response {
    /// A response with the given status and body.
    pub fn new(status: u16, body: String) -> (response: Response)
        ensures
            response@ == (ResponseModel { status, body: body@ }),
    {
        Response { status, body }
    }
}

} // verus!
