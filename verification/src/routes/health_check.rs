//! `GET /health_check`: tells a monitor that the process accepts connections.

use crate::http::{empty_response, Response, STATUS_OK};
use vstd::prelude::*;

verus! {

/// Answers a health check: status 200 and an empty body, whatever the state of
/// the store. The function takes nothing and touches nothing, so every call
/// gives this same response and leaves the service as it was.
pub fn health_check() -> (response: Response)
    ensures
        response@ == empty_response(STATUS_OK),
        response@.status == 200,
        response@.body.len() == 0,
{
    Response::empty(STATUS_OK)
}

} // verus!
