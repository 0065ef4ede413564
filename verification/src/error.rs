//! Per-request failures and the response each one is reported with.

use vstd::prelude::*;
use vstd::string::*;

verus! {

/// Status of a failure inside the proxy itself.
pub const STATUS_INTERNAL: u16 = 500;

/// Status of a failure to reach the upstream. The upstream's own statuses
/// are passed through and never mapped to this one.
pub const STATUS_BAD_GATEWAY: u16 = 502;

/// Status of a request that did not present the configured secret.
pub const STATUS_UNAUTHORIZED: u16 = 401;

/// A failure while one request is handled.
#[derive(Debug, Clone)]
pub enum ProxyError {
    /// The proxy could not do its own part.
    Internal(String),
    /// The upstream could not be reached.
    Upstream(String),
    /// The caller did not present the configured secret.
    Unauthorized(String),
}

/// A failure as its kind and the characters of its text.
pub enum Failure {
    Internal(Seq<char>),
    Upstream(Seq<char>),
    Unauthorized(Seq<char>),
}

impl View for ProxyError {
    type V = Failure;

    open spec fn view(&self) -> Failure {
        match *self {
            ProxyError::Internal(m) => Failure::Internal(m@),
            ProxyError::Upstream(m) => Failure::Upstream(m@),
            ProxyError::Unauthorized(m) => Failure::Unauthorized(m@),
        }
    }
}

/// What every failure body begins with.
pub open spec fn body_lead() -> Seq<char> {
    "Proxy Error: "@
}

/// The text of a rejection by the auth gate.
pub open spec fn unauthorized_text() -> Seq<char> {
    "Invalid or missing 'Authorization: Bearer <TOKEN>' header"@
}

/// What the text of a failed target construction begins with.
pub open spec fn target_lead() -> Seq<char> {
    "URL build fail: "@
}

/// What the text of a failed upstream call begins with.
pub open spec fn upstream_lead() -> Seq<char> {
    "Failed to send request to Gemini API: "@
}

/// What the text of a failed response construction begins with.
pub open spec fn response_lead() -> Seq<char> {
    "Failed to build response: "@
}

/// What the text of a failed access to the shared pool begins with.
pub open spec fn pool_lead() -> Seq<char> {
    "Failed to lock API key manager mutex: "@
}

fn joined(lead: &str, detail: &str) -> (text: String)
    ensures
        text@ == lead@ + detail@,
{
    let mut text: String = lead.to_owned();
    text.append(detail);
    text
}

impl ProxyError {
    /// The human-readable text carried by the failure.
    pub open spec fn text(self) -> Seq<char> {
        match self {
            ProxyError::Internal(m) => m@,
            ProxyError::Upstream(m) => m@,
            ProxyError::Unauthorized(m) => m@,
        }
    }

    /// The status the failure is reported with.
    pub open spec fn status(self) -> u16 {
        match self {
            ProxyError::Internal(_) => STATUS_INTERNAL,
            ProxyError::Upstream(_) => STATUS_BAD_GATEWAY,
            ProxyError::Unauthorized(_) => STATUS_UNAUTHORIZED,
        }
    }

    /// The rejection issued by the auth gate.
    pub fn unauthorized() -> (e: ProxyError)
        ensures
            e@ == Failure::Unauthorized(unauthorized_text()),
    {
        ProxyError::Unauthorized(
            "Invalid or missing 'Authorization: Bearer <TOKEN>' header".to_owned(),
        )
    }

    /// The target address could not be constructed; `detail` says why.
    pub fn invalid_target(detail: &str) -> (e: ProxyError)
        ensures
            e@ == Failure::Internal(target_lead() + detail@),
    {
        ProxyError::Internal(joined("URL build fail: ", detail))
    }

    /// The upstream could not be reached; `detail` says why.
    pub fn upstream_unreachable(detail: &str) -> (e: ProxyError)
        ensures
            e@ == Failure::Upstream(upstream_lead() + detail@),
    {
        ProxyError::Upstream(joined("Failed to send request to Gemini API: ", detail))
    }

    /// The response to the caller could not be put together; `detail` says
    /// why.
    pub fn response_unbuildable(detail: &str) -> (e: ProxyError)
        ensures
            e@ == Failure::Internal(response_lead() + detail@),
    {
        ProxyError::Internal(joined("Failed to build response: ", detail))
    }

    /// The shared pool could not be accessed; `detail` says why.
    pub fn pool_unavailable(detail: &str) -> (e: ProxyError)
        ensures
            e@ == Failure::Internal(pool_lead() + detail@),
    {
        ProxyError::Internal(joined("Failed to lock API key manager mutex: ", detail))
    }

    /// The status code of the response that reports this failure: 500 for an
    /// internal failure, 502 for an unreachable upstream, 401 for a rejected
    /// caller.
    pub fn status_code(&self) -> (code: u16)
        ensures
            code == self.status(),
    {
        match self {
            ProxyError::Internal(_) => STATUS_INTERNAL,
            ProxyError::Upstream(_) => STATUS_BAD_GATEWAY,
            ProxyError::Unauthorized(_) => STATUS_UNAUTHORIZED,
        }
    }

    /// The body of the response that reports this failure.
    pub fn response_body(&self) -> (body: String)
        ensures
            body@ == body_lead() + self.text(),
    {
        match self {
            ProxyError::Internal(m) => joined("Proxy Error: ", m.as_str()),
            ProxyError::Upstream(m) => joined("Proxy Error: ", m.as_str()),
            ProxyError::Unauthorized(m) => joined("Proxy Error: ", m.as_str()),
        }
    }
}

} // verus!
