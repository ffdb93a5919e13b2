//! One request through the gateway: from the request and what the resolver
//! found to the step that the connection takes next.

use crate::assembler::{asset_defaults, STATUS_OK};
use crate::config::GatewayConfig;
use crate::message::{Asset, LocalRequest, LocalResponse};
use crate::proxy::{plan, plan_with, step_follows, Step};
use crate::router::{found_view, route, route_of, Route};
use crate::target::{path_or_raw, uri_path};
use crate::upgrade::{is_upgrade, upgrade_probe};
use crate::wire::{sendable, sendable_pairs};
use vstd::prelude::*;

verus! {

/// The decision for `request`, given what the resolver found under its path.
pub open spec fn decision_for(
    request: LocalRequest,
    found: Option<Asset>,
    config: GatewayConfig,
) -> Route {
    route_of(
        is_upgrade(upgrade_probe(sendable_pairs(request@.header_pairs))),
        path_or_raw(uri_path(request@.url), request@.url),
        found_view(found),
        config@.proxy_base(),
    )
}

/// Routes `request` and says what the connection does next, when no hook is
/// registered. `found` is what the resolver has under the request's path.
pub fn handle(request: &LocalRequest, found: Option<Asset>, config: &GatewayConfig) -> (step: Step)
    ensures
        step_follows(decision_for(*request, found, *config), *request, step),
{
    let decision = route(request, found, config);
    plan(request, decision)
}

/// Routes `request` and says what the connection does next, when a hook is
/// registered. The hook is called once if an asset is served, on the request
/// and the asset's default headers, and not at all otherwise.
pub fn handle_with<F: FnOnce(&LocalRequest, LocalResponse) -> LocalResponse>(
    request: &LocalRequest,
    found: Option<Asset>,
    config: &GatewayConfig,
    hook: F,
) -> (step: Step)
    requires
        decision_for(*request, found, *config) matches Route::ServeAsset(asset) ==> forall|
            defaults: LocalResponse,
        |
            defaults@ == asset_defaults(asset.mime_type, asset.csp_header) ==> call_requires(
                hook,
                (request, defaults),
            ),
    ensures
        match decision_for(*request, found, *config) {
            Route::ServeAsset(asset) => step matches Step::Respond(out) && out.status == STATUS_OK
                && out.body@ == asset.bytes && exists|
                defaults: LocalResponse,
                changed: LocalResponse,
            |
                defaults@ == asset_defaults(asset.mime_type, asset.csp_header) && call_ensures(
                    hook,
                    (request, defaults),
                    changed,
                ) && out.headers@ == sendable(changed@),
            other => step_follows(other, *request, step),
        },
{
    let decision = route(request, found, config);
    plan_with(request, decision, hook)
}

} // verus!
