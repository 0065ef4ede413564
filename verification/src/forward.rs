//! What is passed back to the caller once the upstream has been tried.

use vstd::prelude::*;

use crate::error::{upstream_lead, Failure, ProxyError};
use crate::message::Header;

verus! {

/// Status and headers of a response.
#[derive(Debug)]
pub struct ResponseHead {
    pub status: u16,
    pub headers: Vec<Header>,
}

/// How the one attempt to reach the upstream ended.
#[derive(Debug)]
pub enum Attempt {
    /// The upstream answered, with whatever status.
    Answered(ResponseHead),
    /// The upstream could not be reached; the text says why.
    Unreachable(String),
}

/// Decides what goes back to the caller. An answer of the upstream is passed
/// on as it is, whatever its status; a failure to reach the upstream becomes
/// a gateway failure that quotes the reason.
pub fn relay(attempt: Attempt) -> (out: Result<ResponseHead, ProxyError>)
    ensures
        match attempt {
            Attempt::Answered(head) => out == Ok::<ResponseHead, ProxyError>(head),
            Attempt::Unreachable(why) => out matches Err(e) && e@ == Failure::Upstream(
                upstream_lead() + why@,
            ),
        },
{
    match attempt {
        Attempt::Answered(head) => Ok(head),
        Attempt::Unreachable(why) => Err(ProxyError::upstream_unreachable(why.as_str())),
    }
}

} // verus!
