//! Request paths and dev-server targets: what the gateway asks the resolver
//! for, and where it forwards what the resolver does not have.

use crate::message::text_of;
use vstd::prelude::*;

verus! {

/// The path component that `http::Uri` finds in a request target, or `None`
/// where it does not accept the target as a URI.
pub uninterp spec fn uri_path(target: Seq<char>) -> Option<Seq<char>>;

/// What `url::Url` makes of `reference` read against the base URL `base`, or
/// `None` where `base` is no URL or the reference cannot be resolved.
pub uninterp spec fn url_join(base: Seq<char>, reference: Seq<char>) -> Option<Seq<char>>;

/// The URL `url` with its scheme replaced by `scheme`, as `url::Url` writes it,
/// or `None` where `url` is no URL or the scheme cannot be changed so.
pub uninterp spec fn url_with_scheme(url: Seq<char>, scheme: Seq<char>) -> Option<Seq<char>>;

/// Parses `target` with `<http::Uri as FromStr>::from_str` and takes
/// `Uri::path` of the result. The contract only gives that result its name:
/// the same target always yields the same answer.
#[verifier::external_body]
fn parse_path(target: &str) -> (path: Option<String>)
    ensures
        text_of(path) == uri_path(target@),
{
    match target.parse::<http::Uri>() {
        Ok(uri) => Some(uri.path().to_string()),
        Err(_) => None,
    }
}

/// Parses `base` with `url::Url::parse` and resolves `reference` against it
/// with `url::Url::join`; the answer is the serialization of the joined URL.
/// The contract only gives that result its name.
#[verifier::external_body]
fn join(base: &str, reference: &str) -> (joined: Option<String>)
    ensures
        text_of(joined) == url_join(base@, reference@),
{
    match url::Url::parse(base) {
        Ok(base) => base.join(reference).ok().map(String::from),
        Err(_) => None,
    }
}

/// Parses `url` with `url::Url::parse` and replaces its scheme with
/// `url::Url::set_scheme`; the answer is the serialization of the changed URL.
/// The contract only gives that result its name.
#[verifier::external_body]
fn with_scheme(url: &str, scheme: &str) -> (changed: Option<String>)
    ensures
        text_of(changed) == url_with_scheme(url@, scheme@),
{
    match url::Url::parse(url) {
        Ok(mut parsed) => parsed.set_scheme(scheme).ok().map(|_| String::from(parsed)),
        Err(_) => None,
    }
}

/// The path to look up: the parsed path where the target parsed, the raw
/// target otherwise.
pub open spec fn path_or_raw(parsed: Option<Seq<char>>, raw: Seq<char>) -> Seq<char> {
    match parsed {
        Some(path) => path,
        None => raw,
    }
}

/// Chooses the path to look up from the outcome of parsing the target: a
/// target that did not parse is used verbatim.
pub fn choose_path(parsed: Option<String>, raw: &str) -> (path: String)
    ensures
        path@ == path_or_raw(text_of(parsed), raw@),
{
    match parsed {
        Some(path) => path,
        None => raw.to_owned(),
    }
}

/// The path of a raw request target. No target is refused.
pub fn request_path(target: &str) -> (path: String)
    ensures
        path@ == path_or_raw(uri_path(target@), target@),
{
    choose_path(parse_path(target), target)
}

/// Where a plain request for `path` goes on the dev server at `base`.
pub open spec fn http_target(base: Seq<char>, path: Seq<char>) -> Option<Seq<char>> {
    url_join(base, path)
}

/// Where a WebSocket session for `path` goes on the dev server at `base`:
/// the joined URL with the scheme `ws`.
pub open spec fn websocket_target(base: Seq<char>, path: Seq<char>) -> Option<Seq<char>> {
    match url_join(base, path) {
        Some(joined) => url_with_scheme(joined, "ws"@),
        None => None,
    }
}

/// The dev-server URL for a plain request, where the join succeeds.
pub fn proxy_url(base: &str, path: &str) -> (target: Option<String>)
    ensures
        text_of(target) == http_target(base@, path@),
{
    join(base, path)
}

/// The dev-server URL for a WebSocket session, where the join and the change
/// of scheme both succeed.
pub fn websocket_url(base: &str, path: &str) -> (target: Option<String>)
    ensures
        text_of(target) == websocket_target(base@, path@),
{
    match join(base, path) {
        Some(joined) => with_scheme(joined.as_str(), "ws"),
        None => None,
    }
}

} // verus!
