//! Building outbound responses: for a served asset, for a request that found
//! nothing, and for what the dev server answered or failed to answer.

use crate::headers::{HeaderMapping, HeaderSet};
use crate::message::{
    text_of, Asset, LocalRequest, LocalResponse, OutboundResponse, UpstreamResponse,
};
use crate::wire::{sendable, sendable_headers};
use vstd::prelude::*;

verus! {

/// Status of a served asset.
pub const STATUS_OK: u16 = 200;

/// Status of a request that found nothing.
pub const STATUS_NOT_FOUND: u16 = 404;

/// Status of a request that the dev server could not answer.
pub const STATUS_BAD_GATEWAY: u16 = 502;

/// The headers an asset response starts from: its content type, and its
/// content security policy where the asset has one.
pub open spec fn asset_defaults(mime_type: Seq<char>, csp: Option<Seq<char>>) -> HeaderMapping {
    let base = HeaderMapping::empty().insert("Content-Type"@, mime_type);
    match csp {
        Some(policy) => base.insert("Content-Security-Policy"@, policy),
        None => base,
    }
}

/// The headers of the response to a request that found nothing.
pub open spec fn not_found_headers() -> HeaderMapping {
    HeaderMapping::empty().insert("Content-Type"@, "text/html"@).insert(
        "Content-Security-Policy"@,
        "default-src 'none'"@,
    )
}

/// The header set an asset response starts from, before any hook has run.
pub fn default_headers(asset: &Asset) -> (response: LocalResponse)
    ensures
        response@ == asset_defaults(asset.mime_type@, text_of(asset.csp_header)),
{
    let mut response = LocalResponse::new();
    response.add_header("Content-Type", asset.mime_type.as_str());
    match &asset.csp_header {
        Some(policy) => {
            response.add_header("Content-Security-Policy", policy.as_str());
        },
        None => {},
    }
    response
}

/// Seals an asset response: status 200, the headers of `response` that are
/// fit for the wire, and `body` as it is.
pub fn seal_asset_response(response: LocalResponse, body: Vec<u8>) -> (out: OutboundResponse)
    ensures
        out.status == STATUS_OK,
        out.headers@ == sendable(response@),
        out.body@ == body@,
{
    let headers = sendable_headers(response.headers());
    OutboundResponse { status: STATUS_OK, headers, body }
}

/// The response that serves `asset` when no hook is registered.
pub fn serve_asset(asset: Asset) -> (out: OutboundResponse)
    ensures
        out.status == STATUS_OK,
        out.headers@ == sendable(asset_defaults(asset.mime_type@, text_of(asset.csp_header))),
        out.body@ == asset.bytes@,
{
    let response = default_headers(&asset);
    seal_asset_response(response, asset.bytes)
}

/// The response that serves `asset` with a registered hook: the hook is called
/// once, on the request and on the default headers, and what it hands back is
/// sealed.
pub fn serve_asset_with<F: FnOnce(&LocalRequest, LocalResponse) -> LocalResponse>(
    request: &LocalRequest,
    asset: Asset,
    hook: F,
) -> (out: OutboundResponse)
    requires
        forall|defaults: LocalResponse|
            defaults@ == asset_defaults(asset.mime_type@, text_of(asset.csp_header))
                ==> call_requires(hook, (request, defaults)),
    ensures
        out.status == STATUS_OK,
        out.body@ == asset.bytes@,
        exists|defaults: LocalResponse, changed: LocalResponse|
            defaults@ == asset_defaults(asset.mime_type@, text_of(asset.csp_header))
                && call_ensures(hook, (request, defaults), changed) && out.headers@ == sendable(
                changed@,
            ),
{
    let defaults = default_headers(&asset);
    let changed = hook(request, defaults);
    seal_asset_response(changed, asset.bytes)
}

/// The response to a request that found nothing: 404, the two fixed headers,
/// no body. No hook sees it.
pub fn not_found() -> (out: OutboundResponse)
    ensures
        out.status == STATUS_NOT_FOUND,
        out.headers@ == not_found_headers(),
        out.body@ == Seq::<u8>::empty(),
{
    let mut headers = HeaderSet::new();
    headers.insert("Content-Type".to_owned(), "text/html".to_owned());
    headers.insert("Content-Security-Policy".to_owned(), "default-src 'none'".to_owned());
    OutboundResponse { status: STATUS_NOT_FOUND, headers, body: Vec::new() }
}

/// The response to a request that the dev server could not answer: 502, no
/// header, no body.
pub fn bad_gateway() -> (out: OutboundResponse)
    ensures
        out.status == STATUS_BAD_GATEWAY,
        out.headers@ == HeaderMapping::empty(),
        out.body@ == Seq::<u8>::empty(),
{
    OutboundResponse { status: STATUS_BAD_GATEWAY, headers: HeaderSet::new(), body: Vec::new() }
}

/// The response that mirrors what the dev server answered: its status, its
/// headers and its body, unchanged.
pub fn mirror(upstream: UpstreamResponse) -> (out: OutboundResponse)
    ensures
        out.status == upstream.status,
        out.headers@ == upstream.headers@,
        out.headers.pairs() == upstream.headers.pairs(),
        out.body@ == upstream.body@,
{
    OutboundResponse { status: upstream.status, headers: upstream.headers, body: upstream.body }
}

/// The response for the outcome of forwarding a request: the mirror of the
/// dev server's answer, or 502 where the exchange failed.
pub fn conclude(outcome: Option<UpstreamResponse>) -> (out: OutboundResponse)
    ensures
        match outcome {
            Some(upstream) => out.status == upstream.status && out.headers@ == upstream.headers@
                && out.body@ == upstream.body@,
            None => out.status == STATUS_BAD_GATEWAY && out.headers@ == HeaderMapping::empty()
                && out.body@ == Seq::<u8>::empty(),
        },
{
    match outcome {
        Some(upstream) => mirror(upstream),
        None => bad_gateway(),
    }
}

} // verus!
