//! The stages a request passes before it is sent upstream: the liveness
//! route, the auth gate, the credential, the translation.

use vstd::prelude::*;

use crate::auth::{admitted, authorize, secret_view};
use crate::error::{unauthorized_text, Failure, ProxyError};
use crate::key::KeyPool;
use crate::message::{InboundRequest, InboundView, OutboundRequest, OutboundView};
use crate::text::same_text;
use crate::translate::{target_outcome, translate, translated};

verus! {

/// The status of the liveness response.
pub const LIVENESS_STATUS: u16 = 200;

/// The path of the liveness check.
pub open spec fn liveness_path() -> Seq<char> {
    "/healthz"@
}

/// The body of the liveness response.
pub fn liveness_body() -> (body: String)
    ensures
        body@ == "ok"@,
{
    "ok".to_owned()
}

/// Whether `path` is the liveness check.
pub fn is_liveness(path: &str) -> (r: bool)
    ensures
        r == (path@ == liveness_path()),
{
    same_text(path, "/healthz")
}

/// What is decided about a request before any credential is touched.
#[derive(Debug)]
pub enum Admission {
    /// The liveness check: answered at once, whoever asks.
    Liveness,
    /// Stopped at the auth gate.
    Rejected(ProxyError),
    /// To be given a credential and sent upstream.
    Proxy,
}

/// An admission with its failure as text.
pub enum AdmissionView {
    Liveness,
    Rejected(Failure),
    Proxy,
}

impl View for Admission {
    type V = AdmissionView;

    open spec fn view(&self) -> AdmissionView {
        match *self {
            Admission::Liveness => AdmissionView::Liveness,
            Admission::Rejected(e) => AdmissionView::Rejected(e@),
            Admission::Proxy => AdmissionView::Proxy,
        }
    }
}

/// The admission of a request: the liveness path is never gated; every other
/// path is proxied if the auth gate admits the request and rejected if not.
pub open spec fn admission(secret: Option<Seq<char>>, request: InboundView) -> AdmissionView {
    if request.path == liveness_path() {
        AdmissionView::Liveness
    } else if admitted(secret, request.headers) {
        AdmissionView::Proxy
    } else {
        AdmissionView::Rejected(Failure::Unauthorized(unauthorized_text()))
    }
}

/// Decides what happens to a request, without access to the credentials.
pub fn screen(secret: &Option<String>, request: &InboundRequest) -> (a: Admission)
    ensures
        a@ == admission(secret_view(*secret), request@),
{
    if is_liveness(request.path.as_str()) {
        Admission::Liveness
    } else {
        match authorize(secret, &request.headers) {
            Ok(()) => Admission::Proxy,
            Err(e) => Admission::Rejected(e),
        }
    }
}

/// What is to be done for a request.
#[derive(Debug)]
pub enum Plan {
    /// Answer the liveness check.
    Alive,
    /// Send this request upstream and relay the answer.
    Forward(OutboundRequest),
    /// Answer with this failure.
    Reject(ProxyError),
}

/// A plan as sequences.
pub enum PlanView {
    Alive,
    Forward(OutboundView),
    Reject(Failure),
}

impl View for Plan {
    type V = PlanView;

    open spec fn view(&self) -> PlanView {
        match *self {
            Plan::Alive => PlanView::Alive,
            Plan::Forward(o) => PlanView::Forward(o@),
            Plan::Reject(e) => PlanView::Reject(e@),
        }
    }
}

/// The plan that a translation amounts to.
pub open spec fn plan_of(translation: Result<OutboundView, Failure>) -> PlanView {
    match translation {
        Ok(o) => PlanView::Forward(o),
        Err(f) => PlanView::Reject(f),
    }
}

/// Runs the stages for one request on a pool that the caller holds
/// exclusively.
///
/// The liveness check and a rejected request leave the pool as it was. An
/// admitted request takes exactly one credential, the one under the cursor,
/// and is translated with it.
///
/// A server that shares the pool between requests calls `screen`, `get_key`
/// and `translate` itself, so that the pool is held for `get_key` only.
pub fn serve(pool: &mut KeyPool, secret: &Option<String>, request: &InboundRequest) -> (plan: Plan)
    ensures
        match admission(secret_view(*secret), request@) {
            AdmissionView::Liveness => plan@ == PlanView::Alive && final(pool)@ == old(pool)@,
            AdmissionView::Rejected(f) => plan@ == PlanView::Reject(f) && final(pool)@ == old(
                pool,
            )@,
            AdmissionView::Proxy => final(pool)@ == old(pool)@.advance() && plan@ == plan_of(
                translated(
                    request@,
                    old(pool)@.current(),
                    target_outcome(request@.path, request@.query),
                ),
            ),
        },
{
    match screen(secret, request) {
        Admission::Liveness => Plan::Alive,
        Admission::Rejected(e) => Plan::Reject(e),
        Admission::Proxy => {
            let key = pool.get_key();
            match translate(request, key.as_str()) {
                Ok(outbound) => Plan::Forward(outbound),
                Err(e) => Plan::Reject(e),
            }
        },
    }
}

} // verus!
