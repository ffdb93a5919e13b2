//! The request router: one decision per request, from the request, what the
//! resolver found, and the configuration.

use crate::config::GatewayConfig;
use crate::message::{text_of, Asset, AssetView, LocalRequest};
use crate::target::{
    http_target, path_or_raw, proxy_url, request_path, uri_path, websocket_target, websocket_url,
};
use crate::upgrade::{is_upgrade, is_upgrade_request, upgrade_probe};
use crate::wire::sendable_pairs;
use vstd::prelude::*;

verus! {

/// How one request is handled. Exactly one of the five is chosen.
#[derive(Clone, Debug, PartialEq, Eq)]
pub enum RouteDecision {
    /// Accept the upgrade on this path; there is no dev server to tunnel to.
    UpgradeToWebSocket(String),
    /// Serve the asset that the resolver found.
    ServeAsset(Asset),
    /// Forward the request to this URL on the dev server.
    ProxyHttp(String),
    /// Accept the upgrade and tunnel the session to this URL on the dev server.
    ProxyWebSocket(String),
    /// Answer that nothing was found.
    NotFound,
}

/// A route decision over plain values.
pub enum Route {
    UpgradeToWebSocket(Seq<char>),
    ServeAsset(AssetView),
    ProxyHttp(Seq<char>),
    ProxyWebSocket(Seq<char>),
    NotFound,
}

impl View for RouteDecision {
    type V = Route;

    open spec fn view(&self) -> Route {
        match *self {
            RouteDecision::UpgradeToWebSocket(path) => Route::UpgradeToWebSocket(path@),
            RouteDecision::ServeAsset(asset) => Route::ServeAsset(asset@),
            RouteDecision::ProxyHttp(url) => Route::ProxyHttp(url@),
            RouteDecision::ProxyWebSocket(url) => Route::ProxyWebSocket(url@),
            RouteDecision::NotFound => Route::NotFound,
        }
    }
}

/// What the resolver found, as plain values.
pub open spec fn found_view(found: Option<Asset>) -> Option<AssetView> {
    match found {
        Some(asset) => Some(asset@),
        None => None,
    }
}

/// The decision for an upgrade request: tunnel to the dev server where one
/// may be used and the target can be formed, accept the upgrade alone
/// otherwise. The resolver is not asked.
pub open spec fn upgrade_route(path: Seq<char>, proxy_base: Option<Seq<char>>) -> Route {
    match proxy_base {
        Some(base) => match websocket_target(base, path) {
            Some(url) => Route::ProxyWebSocket(url),
            None => Route::UpgradeToWebSocket(path),
        },
        None => Route::UpgradeToWebSocket(path),
    }
}

/// The decision for a plain request: serve what the resolver found; forward
/// what it did not find where a dev server may be used and the target can be
/// formed; nothing found otherwise.
pub open spec fn plain_route(
    path: Seq<char>,
    found: Option<AssetView>,
    proxy_base: Option<Seq<char>>,
) -> Route {
    match found {
        Some(asset) => Route::ServeAsset(asset),
        None => match proxy_base {
            Some(base) => match http_target(base, path) {
                Some(url) => Route::ProxyHttp(url),
                None => Route::NotFound,
            },
            None => Route::NotFound,
        },
    }
}

/// The decision for a request.
pub open spec fn route_of(
    upgrade: bool,
    path: Seq<char>,
    found: Option<AssetView>,
    proxy_base: Option<Seq<char>>,
) -> Route {
    if upgrade {
        upgrade_route(path, proxy_base)
    } else {
        plain_route(path, found, proxy_base)
    }
}

/// The decision for an upgrade request, from the tunnel target that could be
/// formed, if any.
pub fn route_upgrade(path: String, target: Option<String>) -> (decision: RouteDecision)
    ensures
        decision@ == match text_of(target) {
            Some(url) => Route::ProxyWebSocket(url),
            None => Route::UpgradeToWebSocket(path@),
        },
{
    match target {
        Some(url) => RouteDecision::ProxyWebSocket(url),
        None => RouteDecision::UpgradeToWebSocket(path),
    }
}

/// The decision for a plain request, from what the resolver found and the
/// dev-server URL that could be formed, if any. A found asset is served
/// whatever the target.
pub fn route_plain(found: Option<Asset>, target: Option<String>) -> (decision: RouteDecision)
    ensures
        decision@ == match found_view(found) {
            Some(asset) => Route::ServeAsset(asset),
            None => match text_of(target) {
                Some(url) => Route::ProxyHttp(url),
                None => Route::NotFound,
            },
        },
{
    match found {
        Some(asset) => RouteDecision::ServeAsset(asset),
        None => match target {
            Some(url) => RouteDecision::ProxyHttp(url),
            None => RouteDecision::NotFound,
        },
    }
}

/// Decides how a request is handled, from whether it asks for an upgrade, the
/// path it asks for, what the resolver found under that path, and the
/// configuration. For an upgrade request `found` is not looked at.
pub fn decide(
    upgrade: bool,
    path: String,
    found: Option<Asset>,
    config: &GatewayConfig,
) -> (decision: RouteDecision)
    ensures
        decision@ == route_of(upgrade, path@, found_view(found), config@.proxy_base()),
{
    if upgrade {
        let target = match config.proxy_base() {
            Some(base) => websocket_url(base, path.as_str()),
            None => None,
        };
        route_upgrade(path, target)
    } else if found.is_some() {
        route_plain(found, None)
    } else {
        let target = match config.proxy_base() {
            Some(base) => proxy_url(base, path.as_str()),
            None => None,
        };
        route_plain(found, target)
    }
}

/// What the router first learns of a request: whether it asks for an upgrade,
/// and the path to ask the resolver for.
#[derive(Clone, Debug, PartialEq, Eq)]
pub struct Inquiry {
    pub upgrade: bool,
    pub path: String,
}

/// Reads from a request whether it asks for an upgrade and which path it asks
/// for. The resolver need only be asked where `upgrade` is false.
pub fn inquire(request: &LocalRequest) -> (inquiry: Inquiry)
    ensures
        inquiry.upgrade == is_upgrade(upgrade_probe(sendable_pairs(request@.header_pairs))),
        inquiry.path@ == path_or_raw(uri_path(request@.url), request@.url),
{
    Inquiry { upgrade: is_upgrade_request(request), path: request_path(request.url()) }
}

/// Decides how `request` is handled, given what the resolver found under the
/// request's path.
pub fn route(request: &LocalRequest, found: Option<Asset>, config: &GatewayConfig) -> (decision:
    RouteDecision)
    ensures
        decision@ == route_of(
            is_upgrade(upgrade_probe(sendable_pairs(request@.header_pairs))),
            path_or_raw(uri_path(request@.url), request@.url),
            found_view(found),
            config@.proxy_base(),
        ),
{
    let inquiry = inquire(request);
    decide(inquiry.upgrade, inquiry.path, found, config)
}

} // verus!
