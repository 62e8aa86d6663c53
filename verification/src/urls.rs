//! Trusted boundary to URL parsing and joining. Both outcomes are
//! functions of the argument strings alone (RFC 3986 resolution), far
//! too large to restate, so they are given names.

use vstd::prelude::*;

verus! {

/// The serialized form of a string parsed as an absolute URL, or
/// nothing where the string is no valid URL.
pub uninterp spec fn url_normalized(s: Seq<char>) -> Option<Seq<char>>;

/// The serialized form of a relative-or-absolute reference resolved
/// against a base URL, or nothing where base or reference is invalid.
pub uninterp spec fn url_joined(base: Seq<char>, reference: Seq<char>) -> Option<Seq<char>>;

/// Relies on url::Url::parse: a deterministic parser; the result is
/// serialized back with url::Url::as_str.
#[verifier::external_body]
pub(crate) fn normalize_url(s: &str) -> (r: Option<String>)
    ensures
        (r matches Some(u) ==> url_normalized(s@) == Some(u@)),
        (r is None ==> url_normalized(s@) is None),
{
    match url::Url::parse(s) {
        Ok(u) => Some(u.as_str().to_owned()),
        Err(_) => None,
    }
}

/// Relies on url::Url::join, with url::Url::parse converting the base
/// string into the value the method needs: standard URL-join
/// semantics, an absolute reference replacing the base.
#[verifier::external_body]
pub(crate) fn join_url(base: &str, reference: &str) -> (r: Option<String>)
    ensures
        (r matches Some(u) ==> url_joined(base@, reference@) == Some(u@)),
        (r is None ==> url_joined(base@, reference@) is None),
{
    match url::Url::parse(base) {
        Ok(b) => match b.join(reference) {
            Ok(u) => Some(u.as_str().to_owned()),
            Err(_) => None,
        },
        Err(_) => None,
    }
}

} // verus!
