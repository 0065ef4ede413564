//! The inbound auth gate.
//!
//! A caller presents the shared secret as `Authorization: Bearer <token>`
//! or, where the request carries no readable `Authorization` header, as the
//! value of `x-goog-api-key`. The bearer token is everything that follows
//! `Bearer `, byte for byte; it is compared with the secret as it stands, so
//! a blank more or less is a different token.

use vstd::prelude::*;
use vstd::slice::*;
use vstd::utf8::*;

use crate::error::{unauthorized_text, Failure, ProxyError};
use crate::message::{header_views, Header, HeaderView};
use crate::text::{bytes_equal, has_prefix, matches_ignoring_case, same_ignoring_case};

verus! {

/// A byte that may stand in a header value that is read as text: a visible
/// ASCII character, a space or a tab.
pub open spec fn is_visible(b: u8) -> bool {
    (32 <= b && b < 127) || b == 9
}

/// The value can be read as text.
pub open spec fn readable(value: Seq<u8>) -> bool {
    forall|i: int| 0 <= i < value.len() ==> is_visible(#[trigger] value[i])
}

/// The value of the first header called `name`, if there is one.
pub open spec fn first_value(headers: Seq<HeaderView>, name: Seq<char>) -> Option<Seq<u8>>
    decreases headers.len(),
{
    if headers.len() == 0 {
        None
    } else if same_ignoring_case(headers[0].name, name) {
        Some(headers[0].value)
    } else {
        first_value(headers.drop_first(), name)
    }
}

/// The value of the first header called `name`, if there is one and it can
/// be read as text.
pub open spec fn readable_value(headers: Seq<HeaderView>, name: Seq<char>) -> Option<Seq<u8>> {
    match first_value(headers, name) {
        Some(v) => if readable(v) {
            Some(v)
        } else {
            None
        },
        None => None,
    }
}

/// What a bearer credential begins with.
pub open spec fn bearer_lead() -> Seq<u8> {
    encode_utf8("Bearer "@)
}

/// The token that the request presents, if any. A readable `Authorization`
/// header decides alone: it yields all that follows `Bearer `, unchanged, or
/// nothing where it does not begin with `Bearer `. Only without one is
/// `x-goog-api-key` consulted.
pub open spec fn candidate_token(headers: Seq<HeaderView>) -> Option<Seq<u8>> {
    match readable_value(headers, "authorization"@) {
        Some(v) => if has_prefix(v, bearer_lead()) {
            Some(v.skip(bearer_lead().len() as int))
        } else {
            None
        },
        None => readable_value(headers, "x-goog-api-key"@),
    }
}

/// Whether a request with these headers passes the auth gate. Without a secret
/// every request passes; with one, the presented token must be the secret
/// exactly.
pub open spec fn admitted(secret: Option<Seq<char>>, headers: Seq<HeaderView>) -> bool {
    match secret {
        None => true,
        Some(s) => candidate_token(headers) == Some(encode_utf8(s)),
    }
}

/// The characters of an optional secret.
pub open spec fn secret_view(secret: Option<String>) -> Option<Seq<char>> {
    match secret {
        Some(s) => Some(s@),
        None => None,
    }
}

/// Whether every byte of `value` is visible ASCII, a space or a tab.
pub fn is_readable(value: &[u8]) -> (r: bool)
    ensures
        r == readable(value@),
{
    let mut i: usize = 0;
    while i < value.len()
        invariant
            i <= value@.len(),
            forall|k: int| 0 <= k < i ==> is_visible(#[trigger] value@[k]),
        decreases value@.len() - i,
    {
        let b: u8 = value[i];
        if !((32 <= b && b < 127) || b == 9) {
            return false;
        }
        i += 1;
    }
    true
}

/// The value of the first header whose name is `name`, ignoring the case of
/// ASCII letters.
pub(crate) fn find_value<'a>(headers: &'a Vec<Header>, name: &str) -> (found: Option<&'a Vec<u8>>)
    requires
        is_ascii_chars(name@),
    ensures
        match found {
            Some(v) => first_value(header_views(headers@), name@) == Some(v@),
            None => first_value(header_views(headers@), name@) is None,
        },
{
    let ghost all = header_views(headers@);
    let mut i: usize = 0;
    proof {
        assert(all.skip(0) =~= all);
    }
    while i < headers.len()
        invariant
            i <= headers@.len(),
            all == header_views(headers@),
            is_ascii_chars(name@),
            first_value(all, name@) == first_value(all.skip(i as int), name@),
        decreases headers@.len() - i,
    {
        proof {
            assert(all.skip(i as int)[0] == headers@[i as int]@);
            assert(all.skip(i as int).drop_first() =~= all.skip(i + 1));
        }
        if matches_ignoring_case(headers[i].name.as_str(), name) {
            return Some(&headers[i].value);
        }
        i += 1;
    }
    None
}

/// The token that a request with these headers presents, if any.
pub fn candidate(headers: &Vec<Header>) -> (token: Option<Vec<u8>>)
    ensures
        match token {
            Some(t) => candidate_token(header_views(headers@)) == Some(t@),
            None => candidate_token(header_views(headers@)) is None,
        },
{
    proof {
        reveal_strlit("authorization");
        reveal_strlit("x-goog-api-key");
    }
    let lead = "Bearer ".as_bytes();
    if let Some(value) = find_value(headers, "authorization") {
        if is_readable(value.as_slice()) {
            let v = value.as_slice();
            if lead.len() <= v.len() && bytes_equal(slice_subrange(v, 0, lead.len()), lead) {
                return Some(slice_to_vec(slice_subrange(v, lead.len(), v.len())));
            } else {
                return None;
            }
        }
    }
    if let Some(value) = find_value(headers, "x-goog-api-key") {
        if is_readable(value.as_slice()) {
            return Some(value.clone());
        }
    }
    None
}

/// The auth gate: lets the request pass or rejects it. Without a secret every
/// request passes. With one, the request passes exactly if it presents that
/// secret.
pub fn authorize(secret: &Option<String>, headers: &Vec<Header>) -> (verdict: Result<
    (),
    ProxyError,
>)
    ensures
        verdict is Ok <==> admitted(secret_view(*secret), header_views(headers@)),
        *secret is None ==> verdict is Ok,
        verdict matches Err(e) ==> e@ == Failure::Unauthorized(unauthorized_text()),
{
    match secret {
        None => Ok(()),
        Some(s) => {
            match candidate(headers) {
                Some(token) => {
                    if bytes_equal(token.as_slice(), s.as_str().as_bytes()) {
                        Ok(())
                    } else {
                        Err(ProxyError::unauthorized())
                    }
                },
                None => Err(ProxyError::unauthorized()),
            }
        },
    }
}

/// With a secret, a request passes in exactly two cases: its readable
/// `Authorization` value is `Bearer ` followed by the secret and nothing
/// else; or it has no readable `Authorization` value and its readable
/// `x-goog-api-key` value is the secret.
pub proof fn lemma_admitted_exactly(secret: Seq<char>, headers: Seq<HeaderView>)
    ensures
        admitted(Some(secret), headers) <==> match readable_value(headers, "authorization"@) {
            Some(v) => v == bearer_lead() + encode_utf8(secret),
            None => readable_value(headers, "x-goog-api-key"@) == Some(encode_utf8(secret)),
        },
{
    let lead = bearer_lead();
    let token = encode_utf8(secret);
    match readable_value(headers, "authorization"@) {
        Some(v) => {
            if has_prefix(v, lead) && v.skip(lead.len() as int) == token {
                assert(v =~= v.subrange(0, lead.len() as int) + v.skip(lead.len() as int));
            }
            if v == lead + token {
                assert(v.subrange(0, lead.len() as int) =~= lead);
                assert(v.skip(lead.len() as int) =~= token);
            }
        },
        None => {},
    }
}

} // verus!
