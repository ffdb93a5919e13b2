//! Forwarding to the dev server: the request that is sent there, and the step
//! that each route decision asks for.

use crate::assembler::{
    asset_defaults, not_found, not_found_headers, serve_asset, serve_asset_with, STATUS_NOT_FOUND,
    STATUS_OK,
};
use crate::headers::HeaderSet;
use crate::message::{LocalRequest, LocalResponse, OutboundResponse};
use crate::router::{Route, RouteDecision};
use crate::wire::sendable;
use vstd::prelude::*;

verus! {

/// A request to the dev server.
#[derive(Debug)]
pub struct ProxyRequest {
    pub method: String,
    pub url: String,
    pub headers: HeaderSet,
    pub body: Vec<u8>,
}

/// The request that forwards `request` to `target`: the same method, the same
/// headers, the same body.
pub fn forward(request: &LocalRequest, target: String) -> (sent: ProxyRequest)
    ensures
        sent.url@ == target@,
        sent.method@ == request@.method,
        sent.headers@ == request@.headers,
        sent.headers.pairs() == request@.header_pairs,
        sent.body@ == request@.body,
{
    ProxyRequest {
        method: request.method().to_owned(),
        url: target,
        headers: request.headers().clone(),
        body: request.body().clone(),
    }
}

/// What the gateway does next for one request.
#[derive(Debug)]
pub enum Step {
    /// Write this response.
    Respond(OutboundResponse),
    /// Send this request to the dev server, then conclude from the outcome.
    Forward(ProxyRequest),
    /// Accept the upgrade and tunnel the session to this URL.
    Tunnel(String),
    /// Accept the upgrade; there is nowhere to tunnel to.
    AcceptUpgrade,
}

/// Whether `step` is the one that `decision` asks for when no hook is
/// registered.
pub open spec fn step_follows(decision: Route, request: LocalRequest, step: Step) -> bool {
    match decision {
        Route::ServeAsset(asset) => step matches Step::Respond(out) && out.status == STATUS_OK
            && out.headers@ == sendable(asset_defaults(asset.mime_type, asset.csp_header))
            && out.body@ == asset.bytes,
        Route::NotFound => step matches Step::Respond(out) && out.status == STATUS_NOT_FOUND
            && out.headers@ == not_found_headers() && out.body@ == Seq::<u8>::empty(),
        Route::ProxyHttp(url) => step matches Step::Forward(sent) && sent.url@ == url
            && sent.method@ == request@.method && sent.headers@ == request@.headers
            && sent.headers.pairs() == request@.header_pairs && sent.body@ == request@.body,
        Route::ProxyWebSocket(url) => step matches Step::Tunnel(target) && target@ == url,
        Route::UpgradeToWebSocket(_) => step is AcceptUpgrade,
    }
}

/// The step that a route decision asks for when no hook is registered.
pub fn plan(request: &LocalRequest, decision: RouteDecision) -> (step: Step)
    ensures
        step_follows(decision@, *request, step),
{
    match decision {
        RouteDecision::ServeAsset(asset) => Step::Respond(serve_asset(asset)),
        RouteDecision::NotFound => Step::Respond(not_found()),
        RouteDecision::ProxyHttp(url) => Step::Forward(forward(request, url)),
        RouteDecision::ProxyWebSocket(url) => Step::Tunnel(url),
        RouteDecision::UpgradeToWebSocket(_) => Step::AcceptUpgrade,
    }
}

/// The step that a route decision asks for when a hook is registered. The
/// hook is called for a served asset, once, and for nothing else.
pub fn plan_with<F: FnOnce(&LocalRequest, LocalResponse) -> LocalResponse>(
    request: &LocalRequest,
    decision: RouteDecision,
    hook: F,
) -> (step: Step)
    requires
        decision@ matches Route::ServeAsset(asset) ==> forall|defaults: LocalResponse|
            defaults@ == asset_defaults(asset.mime_type, asset.csp_header) ==> call_requires(
                hook,
                (request, defaults),
            ),
    ensures
        match decision@ {
            Route::ServeAsset(asset) => step matches Step::Respond(out) && out.status == STATUS_OK
                && out.body@ == asset.bytes && exists|
                defaults: LocalResponse,
                changed: LocalResponse,
            |
                defaults@ == asset_defaults(asset.mime_type, asset.csp_header) && call_ensures(
                    hook,
                    (request, defaults),
                    changed,
                ) && out.headers@ == sendable(changed@),
            _ => step_follows(decision@, *request, step),
        },
{
    match decision {
        RouteDecision::ServeAsset(asset) => Step::Respond(serve_asset_with(request, asset, hook)),
        other => plan(request, other),
    }
}

} // verus!
