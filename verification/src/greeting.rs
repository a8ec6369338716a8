//! The greeting handler: the same greeting for every request.

use vstd::prelude::*;
use crate::response::{Response, ResponseModel, STATUS_OK};

verus! {

/// The text of every greeting.
pub open spec fn greeting_text() -> Seq<char> {
    "Hello from Rust Lambda!"@
}

/// The response to every request: status 200 and the greeting.
pub open spec fn greeting() -> ResponseModel {
    ResponseModel { status: STATUS_OK, body: greeting_text() }
}

/// Answers any request with the greeting. The request is not looked at, nothing
/// is written anywhere and nothing can fail.
pub fn handle(event: &lambda_http::Request) -> (response: Response)
    ensures
        response@ == greeting(),
{
    Response::new(STATUS_OK, "Hello from Rust Lambda!".to_string())
}

} // verus!
