//! Rewrites an inbound request into the request that is sent upstream.
//!
//! The policy, in one place: the target is always
//! `https://generativelanguage.googleapis.com`; the path is the inbound path
//! behind `/v1beta`; a non-empty query is appended to the path after `&`;
//! paths that begin with `/openai` get the credential as a bearer token, all
//! others get it in `x-goog-api-key`.

use vstd::prelude::*;
use vstd::string::*;
use vstd::utf8::*;

use crate::error::{target_lead, Failure, ProxyError};
use crate::message::{header_views, Header, HeaderView, InboundRequest, InboundView};
use crate::message::{OutboundRequest, OutboundView};
use crate::target::{build_uri, built_view, max_target_len, path_accepted, rendered};
use crate::text::{has_prefix, matches_ignoring_case, same_ignoring_case, starts_with};

verus! {

/// The scheme of every outbound request.
pub open spec fn upstream_scheme() -> Seq<char> {
    "https"@
}

/// The host of every outbound request.
pub open spec fn upstream_host() -> Seq<char> {
    "generativelanguage.googleapis.com"@
}

/// The API-version segment that is put in front of every inbound path.
pub open spec fn version_prefix() -> Seq<char> {
    "/v1beta"@
}

/// Inbound paths that begin with this belong to the surface that takes a
/// bearer token.
pub open spec fn bearer_surface() -> Seq<char> {
    "/openai"@
}

/// The path with query of the outbound request.
pub open spec fn target_path(path: Seq<char>, query: Seq<char>) -> Seq<char> {
    if query.len() == 0 {
        version_prefix() + path
    } else {
        version_prefix() + path + seq!['&'] + query
    }
}

/// Whether a header of this name is left out of the outbound request. Names
/// are compared without regard to the case of ASCII letters.
pub open spec fn is_excluded(name: Seq<char>) -> bool {
    ||| same_ignoring_case(name, "host"@)
    ||| same_ignoring_case(name, "content-length"@)
    ||| same_ignoring_case(name, "accept-encoding"@)
    ||| same_ignoring_case(name, "connection"@)
    ||| same_ignoring_case(name, "user-agent"@)
    ||| same_ignoring_case(name, "authorization"@)
    ||| same_ignoring_case(name, "x-goog-api-key"@)
}

/// The inbound headers that are copied to the outbound request, in order.
pub open spec fn kept_headers(headers: Seq<HeaderView>) -> Seq<HeaderView> {
    headers.filter(|h: HeaderView| !is_excluded(h.name))
}

/// The header that carries the credential, chosen by the inbound path.
pub open spec fn credential_header(path: Seq<char>, credential: Seq<char>) -> HeaderView {
    if has_prefix(path, bearer_surface()) {
        HeaderView { name: "Authorization"@, value: encode_utf8("Bearer "@ + credential) }
    } else {
        HeaderView { name: "x-goog-api-key"@, value: encode_utf8(credential) }
    }
}

/// The body of the outbound request: the inbound bytes, or nothing at all
/// where there are none.
pub open spec fn outbound_body(body: Seq<u8>) -> Option<Seq<u8>> {
    if body.len() == 0 {
        None
    } else {
        Some(body)
    }
}

/// The outbound request for `request` and `credential`, given what the URI
/// builder made of the target.
pub open spec fn translated(
    request: InboundView,
    credential: Seq<char>,
    built: Result<Seq<char>, Seq<char>>,
) -> Result<OutboundView, Failure> {
    match built {
        Ok(url) => Ok(
            OutboundView {
                method: request.method,
                url,
                headers: kept_headers(request.headers).push(
                    credential_header(request.path, credential),
                ),
                body: outbound_body(request.body),
            },
        ),
        Err(why) => Err(Failure::Internal(target_lead() + why)),
    }
}

/// The view of a translation's result.
pub open spec fn outcome_view(out: Result<OutboundRequest, ProxyError>) -> Result<
    OutboundView,
    Failure,
> {
    match out {
        Ok(o) => Ok(o@),
        Err(e) => Err(e@),
    }
}

/// Whether a header of this name is left out of the outbound request.
pub fn is_excluded_name(name: &str) -> (r: bool)
    ensures
        r == is_excluded(name@),
{
    proof {
        reveal_strlit("host");
        reveal_strlit("content-length");
        reveal_strlit("accept-encoding");
        reveal_strlit("connection");
        reveal_strlit("user-agent");
        reveal_strlit("authorization");
        reveal_strlit("x-goog-api-key");
    }
    matches_ignoring_case(name, "host")
        || matches_ignoring_case(name, "content-length")
        || matches_ignoring_case(name, "accept-encoding")
        || matches_ignoring_case(name, "connection")
        || matches_ignoring_case(name, "user-agent")
        || matches_ignoring_case(name, "authorization")
        || matches_ignoring_case(name, "x-goog-api-key")
}

/// Copies the headers that go upstream, in order.
pub fn filter_headers(headers: &Vec<Header>) -> (kept: Vec<Header>)
    ensures
        header_views(kept@) == kept_headers(header_views(headers@)),
{
    let ghost all = header_views(headers@);
    let ghost keep = |h: HeaderView| !is_excluded(h.name);
    let mut kept: Vec<Header> = Vec::new();
    let mut i: usize = 0;
    proof {
        reveal(Seq::filter);
        assert(all.take(0) =~= Seq::<HeaderView>::empty());
        assert(header_views(kept@) =~= all.take(0).filter(keep));
    }
    while i < headers.len()
        invariant
            i <= headers@.len(),
            all == header_views(headers@),
            keep == (|h: HeaderView| !is_excluded(h.name)),
            header_views(kept@) == all.take(i as int).filter(keep),
        decreases headers@.len() - i,
    {
        let ghost before = header_views(kept@);
        proof {
            reveal(Seq::filter);
            assert(all.take(i + 1).drop_last() =~= all.take(i as int));
            assert(all.take(i + 1).last() == headers@[i as int]@);
        }
        if !is_excluded_name(headers[i].name.as_str()) {
            kept.push(headers[i].duplicate());
            assert(header_views(kept@) =~= before.push(headers@[i as int]@));
        }
        i += 1;
    }
    assert(all.take(i as int) =~= all);
    kept
}

/// The header that carries `credential` for a request to `path`.
pub fn make_credential_header(path: &str, credential: &str) -> (header: Header)
    ensures
        header@ == credential_header(path@, credential@),
{
    if starts_with(path, "/openai") {
        let mut token: String = "Bearer ".to_owned();
        token.append(credential);
        Header { name: "Authorization".to_owned(), value: token.as_str().as_bytes_vec() }
    } else {
        Header { name: "x-goog-api-key".to_owned(), value: credential.as_bytes_vec() }
    }
}

/// The path with query of the outbound request for an inbound path and
/// query.
pub fn make_target_path(path: &str, query: &str) -> (target: String)
    ensures
        target@ == target_path(path@, query@),
{
    let mut target: String = "/v1beta".to_owned();
    target.append(path);
    if query.unicode_len() != 0 {
        proof {
            reveal_strlit("&");
        }
        target.append("&");
        target.append(query);
        assert("&"@ =~= seq!['&']);
    }
    target
}

/// Puts the outbound request together once the target address is known:
/// `built` is what the URI builder returned for the target. A refusal by the
/// builder becomes an internal failure that quotes it.
pub fn assemble(request: &InboundRequest, credential: &str, built: Result<String, String>) -> (out:
    Result<OutboundRequest, ProxyError>)
    ensures
        outcome_view(out) == translated(request@, credential@, built_view(built)),
{
    match built {
        Ok(url) => {
            let mut headers = filter_headers(&request.headers);
            let ghost kept = header_views(headers@);
            let extra = make_credential_header(request.path.as_str(), credential);
            headers.push(extra);
            assert(header_views(headers@) =~= kept.push(extra@));
            let body = if request.body.len() == 0 {
                None
            } else {
                Some(request.body.clone())
            };
            Ok(OutboundRequest { method: request.method.clone(), url, headers, body })
        },
        Err(why) => Err(ProxyError::invalid_target(why.as_str())),
    }
}

/// What the URI builder makes of the target for an inbound path and query.
pub open spec fn target_outcome(path: Seq<char>, query: Seq<char>) -> Result<
    Seq<char>,
    Seq<char>,
> {
    rendered(upstream_scheme(), upstream_host(), target_path(path, query))
}

/// Translates an inbound request and a credential into the outbound request.
///
/// Succeeds exactly where the target path is at most 65534 bytes long and
/// holds, up to its first `#`, only characters that the URI builder takes.
/// The address is then the fixed scheme and host followed by the target
/// path up to that `#`. Every other target is an internal failure that
/// quotes the builder.
pub fn translate(request: &InboundRequest, credential: &str) -> (out: Result<
    OutboundRequest,
    ProxyError,
>)
    ensures
        outcome_view(out) == translated(
            request@,
            credential@,
            target_outcome(request@.path, request@.query),
        ),
        out is Ok <==> encode_utf8(target_path(request@.path, request@.query)).len()
            <= max_target_len() && path_accepted(target_path(request@.path, request@.query)),
{
    let target = make_target_path(request.path.as_str(), request.query.as_str());
    proof {
        reveal_strlit("/v1beta");
        reveal_strlit("https");
        reveal_strlit("generativelanguage.googleapis.com");
    }
    let built = build_uri("https", "generativelanguage.googleapis.com", target.as_str());
    assemble(request, credential, built)
}

/// Nothing that the caller sent under an excluded name goes upstream, and
/// nothing else is lost: the copied headers are exactly the inbound headers
/// whose names are not excluded.
pub proof fn lemma_kept_headers(headers: Seq<HeaderView>, h: HeaderView)
    ensures
        kept_headers(headers).contains(h) <==> headers.contains(h) && !is_excluded(h.name),
{
    let keep = |x: HeaderView| !is_excluded(x.name);
    if kept_headers(headers).contains(h) {
        let i = choose|i: int| 0 <= i < kept_headers(headers).len() && kept_headers(headers)[i] == h;
        headers.lemma_filter_pred(keep, i);
        headers.lemma_filter_contains_rev(keep, h);
    }
    if headers.contains(h) && !is_excluded(h.name) {
        let i = choose|i: int| 0 <= i < headers.len() && headers[i] == h;
        headers.lemma_filter_contains(keep, i);
    }
}

} // verus!
