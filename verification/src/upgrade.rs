//! Telling a WebSocket upgrade request from a plain request.

use crate::headers::{HeaderPair, HeaderSet, pairs_view};
use crate::message::LocalRequest;
use crate::wire::{sendable_headers, sendable_pairs};
use vstd::prelude::*;

verus! {

/// What `hyper_tungstenite::is_upgrade_request` says of a request that carries
/// exactly these headers, in this order, or `None` where no `http::HeaderMap`
/// can hold them.
pub uninterp spec fn upgrade_probe(headers: Seq<HeaderPair>) -> Option<bool>;

/// Asks `hyper_tungstenite::is_upgrade_request` about a fresh `hyper::Request`
/// that carries the given headers: each pair is parsed as an
/// `http::HeaderName` and an `http::HeaderValue` and added with
/// `HeaderMap::try_append`. The answer is `None` where a name or a value is
/// refused or the map is full. The contract only gives that result its name:
/// the same headers always yield the same answer.
#[verifier::external_body]
fn probe(headers: &Vec<(String, String)>) -> (answer: Option<bool>)
    ensures
        answer == upgrade_probe(pairs_view(headers@)),
{
    let mut request = hyper::Request::new(());
    for (name, value) in headers.iter() {
        let name = name.parse::<http::HeaderName>().ok()?;
        let value = value.parse::<http::HeaderValue>().ok()?;
        request.headers_mut().try_append(name, value).ok()?;
    }
    Some(hyper_tungstenite::is_upgrade_request(&request))
}

/// Whether a probe's answer makes the request an upgrade request: only a
/// definite yes does.
pub open spec fn is_upgrade(answer: Option<bool>) -> bool {
    answer == Some(true)
}

/// Reads a probe's answer: a request whose headers could not be probed is a
/// plain request.
pub fn upgrade_from_probe(answer: Option<bool>) -> (upgrade: bool)
    ensures
        upgrade == is_upgrade(answer),
{
    match answer {
        Some(yes) => yes,
        None => false,
    }
}

/// Whether `headers` ask for a WebSocket upgrade. Headers that are not fit
/// for the wire take no part.
pub fn asks_upgrade(headers: &HeaderSet) -> (upgrade: bool)
    ensures
        upgrade == is_upgrade(upgrade_probe(sendable_pairs(headers.pairs()))),
{
    let kept = sendable_headers(headers);
    upgrade_from_probe(probe(kept.entries()))
}

/// Whether `request` is a WebSocket upgrade request.
pub fn is_upgrade_request(request: &LocalRequest) -> (upgrade: bool)
    ensures
        upgrade == is_upgrade(upgrade_probe(sendable_pairs(request@.header_pairs))),
{
    asks_upgrade(request.headers())
}

} // verus!
