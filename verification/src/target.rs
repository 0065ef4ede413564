//! The address of the upstream, as the `http` crate's URI builder renders it.

use vstd::prelude::*;
use vstd::utf8::*;

verus! {

/// What the URI builder makes of a scheme, an authority and a path with
/// query: the text of the URI it accepts, or the text of its refusal.
pub uninterp spec fn uri_outcome(
    scheme: Seq<char>,
    authority: Seq<char>,
    path_and_query: Seq<char>,
) -> Result<Seq<char>, Seq<char>>;

/// The texts of a URI builder's result.
pub open spec fn built_view(built: Result<String, String>) -> Result<Seq<char>, Seq<char>> {
    match built {
        Ok(url) => Ok(url@),
        Err(why) => Err(why@),
    }
}

/// The part of `s` before its first `#`; all of `s` where it has none.
pub open spec fn before_fragment(s: Seq<char>) -> Seq<char>
    decreases s.len(),
{
    if s.len() == 0 || s[0] == '#' {
        Seq::empty()
    } else {
        seq![s[0]] + before_fragment(s.drop_first())
    }
}

/// A character that the builder takes in a path: any character beyond
/// ASCII, and of ASCII `!`, `"`, `$` to `;`, `=`, `@` to `_`, and `a` to `~`.
pub open spec fn path_char(c: char) -> bool {
    let b = c as u32;
    b > 0x7F || b == 0x21 || b == 0x22 || (0x24 <= b && b <= 0x3B) || b == 0x3D || (0x40 <= b && b
        <= 0x5F) || (0x61 <= b && b <= 0x7E)
}

/// A character that the builder takes in a query: any character beyond
/// ASCII, and of ASCII `!`, `$` to `;`, `=`, and `?` to `~`.
pub open spec fn query_char(c: char) -> bool {
    let b = c as u32;
    b > 0x7F || b == 0x21 || (0x24 <= b && b <= 0x3B) || b == 0x3D || (0x3F <= b && b <= 0x7E)
}

/// Every character of `s` up to its first `#` may stand in a query.
pub open spec fn query_accepted(s: Seq<char>) -> bool
    decreases s.len(),
{
    s.len() == 0 || s[0] == '#' || (query_char(s[0]) && query_accepted(s.drop_first()))
}

/// Up to its first `#`, `s` is a path of path characters, or such a path,
/// a `?` and a query of query characters. What follows the `#` is not looked
/// at.
pub open spec fn path_accepted(s: Seq<char>) -> bool
    decreases s.len(),
{
    if s.len() == 0 || s[0] == '#' {
        true
    } else if s[0] == '?' {
        query_accepted(s.drop_first())
    } else {
        path_char(s[0]) && path_accepted(s.drop_first())
    }
}

/// The longest path with query that the builder takes, in bytes of UTF-8.
pub open spec fn max_target_len() -> int {
    65534
}

/// One of the two schemes that the builder knows by name.
pub open spec fn known_scheme(scheme: Seq<char>) -> bool {
    scheme == "http"@ || scheme == "https"@
}

/// A host name and nothing else: letters, digits, `.` and `-`, at least one.
pub open spec fn plain_host(authority: Seq<char>) -> bool {
    &&& authority.len() > 0
    &&& forall|i: int|
        0 <= i < authority.len() ==> {
            let c = #[trigger] authority[i];
            ('a' <= c && c <= 'z') || ('A' <= c && c <= 'Z') || ('0' <= c && c <= '9') || c == '.'
                || c == '-'
        }
}

/// What the builder makes of a known scheme, a plain host and a path with
/// query that begins with `/`: a refusal where the path is too long or holds
/// a character it does not take, and else the URI, which is the three parts
/// as given, the path cut at its first `#`.
pub open spec fn rendered(scheme: Seq<char>, authority: Seq<char>, path_and_query: Seq<char>)
    -> Result<Seq<char>, Seq<char>> {
    if encode_utf8(path_and_query).len() > max_target_len() {
        Err("uri too long"@)
    } else if !path_accepted(path_and_query) {
        Err("invalid uri character"@)
    } else {
        Ok(scheme + "://"@ + authority + before_fragment(path_and_query))
    }
}

/// Builds a URI with `axum::http::uri::Builder` (`new`, `scheme`,
/// `authority`, `path_and_query`, `build`) and renders it, or the builder's
/// error, as text.
///
/// Trusted, as read in the builder's source:
/// - the outcome depends on the three arguments alone;
/// - where the builder accepts a path that begins with `/`, the rendered URI
///   is the scheme, `://`, the authority, and the path with query up to the
///   first `#`, each as given;
/// - for the scheme `http` or `https`, an authority that is a plain host
///   name and a path that begins with `/`, the outcome is `rendered`: the
///   path is refused as too long above 65534 bytes, else refused where a
///   character before the first `#` is outside the path and query tables,
///   and else accepted.
#[verifier::external_body]
pub(crate) fn build_uri(scheme: &str, authority: &str, path_and_query: &str) -> (built: Result<
    String,
    String,
>)
    ensures
        built_view(built) == uri_outcome(scheme@, authority@, path_and_query@),
        built matches Ok(text) ==> (path_and_query@.len() > 0 && path_and_query@[0] == '/'
            ==> text@ == scheme@ + "://"@ + authority@ + before_fragment(path_and_query@)),
        known_scheme(scheme@) && plain_host(authority@) && path_and_query@.len() > 0
            && path_and_query@[0] == '/' ==> built_view(built) == rendered(
            scheme@,
            authority@,
            path_and_query@,
        ),
{
    let made = axum::http::uri::Builder::new()
        .scheme(scheme)
        .authority(authority)
        .path_and_query(path_and_query)
        .build();
    match made {
        Ok(uri) => Ok(uri.to_string()),
        Err(e) => Err(e.to_string()),
    }
}

} // verus!
