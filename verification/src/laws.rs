//! What holds of the gateway as a whole, proved from the contracts of its
//! parts.

use crate::assembler::{asset_defaults, not_found_headers, STATUS_NOT_FOUND, STATUS_OK};
use crate::config::GatewayConfigView;
use crate::headers::{lemma_last_write_wins, mapping_of, HeaderMapping, HeaderPair};
use crate::message::{folded, lowered, AssetView, LocalRequest};
use crate::proxy::{step_follows, Step};
use crate::router::{route_of, Route};
use crate::target::url_join;
use crate::tunnel::{advance, Reading, Relay, TunnelAction, TunnelEvent, TunnelState};
use crate::wire::{is_header_name, is_header_value, is_wire_header, sendable};
use vstd::prelude::*;

verus! {

/// The two header names that the gateway sets by itself are fit for the wire
/// and differ from each other.
pub proof fn own_header_names_are_sendable()
    ensures
        is_header_name("Content-Type"@),
        is_header_name("Content-Security-Policy"@),
        "Content-Type"@ != "Content-Security-Policy"@,
{
    reveal_strlit("Content-Type");
    reveal_strlit("Content-Security-Policy");
}

/// The headers of a request are found whatever their case, and of headers
/// with the same name the last one stands: a header that no later header of
/// the request repeats, the case of letters set aside, gives its name, in
/// lower case, its value.
pub proof fn request_headers_keep_the_last_write(raw: Seq<HeaderPair>, i: int)
    requires
        0 <= i < raw.len(),
        forall|j: int| i < j < raw.len() ==> lowered(raw[j].0) != lowered(raw[i].0),
    ensures
        mapping_of(folded(raw)).contains_key(lowered(raw[i].0)),
        mapping_of(folded(raw))[lowered(raw[i].0)] == raw[i].1,
{
    lemma_last_write_wins(folded(raw), i);
}

/// Routing is total: every request gets a decision, and which of the five it
/// is follows from the request alone. An upgrade request is never served an
/// asset, forwarded as a plain request or told that nothing was found; a
/// plain request is never upgraded.
pub proof fn each_request_has_one_route(
    upgrade: bool,
    path: Seq<char>,
    found: Option<AssetView>,
    proxy_base: Option<Seq<char>>,
)
    ensures
        upgrade <==> (route_of(upgrade, path, found, proxy_base) is UpgradeToWebSocket || route_of(
            upgrade,
            path,
            found,
            proxy_base,
        ) is ProxyWebSocket),
        !upgrade && found is Some <==> route_of(upgrade, path, found, proxy_base) is ServeAsset,
        route_of(upgrade, path, found, proxy_base) is ProxyHttp ==> !upgrade && found is None
            && proxy_base is Some,
        route_of(upgrade, path, found, proxy_base) is ProxyWebSocket ==> proxy_base is Some,
{
}

/// A plain request for a path that the resolver has is answered with status
/// 200, the asset's bytes, and the asset's MIME type as `Content-Type`,
/// whenever that MIME type is fit for the wire and no hook is registered.
pub proof fn resolved_path_is_served(
    path: Seq<char>,
    asset: AssetView,
    proxy_base: Option<Seq<char>>,
    request: LocalRequest,
    step: Step,
)
    requires
        is_header_value(asset.mime_type),
        step_follows(route_of(false, path, Some(asset), proxy_base), request, step),
    ensures
        step matches Step::Respond(out) && out.status == STATUS_OK && out.body@ == asset.bytes
            && out.headers@.contains_key("Content-Type"@) && out.headers@["Content-Type"@]
            == asset.mime_type,
{
    own_header_names_are_sendable();
}

/// A plain request for a path that the resolver does not have, with dev mode
/// off or no dev server configured, is answered with exactly: status 404,
/// `Content-Type: text/html`, `Content-Security-Policy: default-src 'none'`,
/// and no body.
pub proof fn unresolved_path_without_dev_server_is_not_found(
    path: Seq<char>,
    config: GatewayConfigView,
    request: LocalRequest,
    step: Step,
)
    requires
        !config.dev_mode || config.dev_url is None,
        step_follows(route_of(false, path, None, config.proxy_base()), request, step),
    ensures
        route_of(false, path, None, config.proxy_base()) == Route::NotFound,
        step matches Step::Respond(out) && out.status == STATUS_NOT_FOUND && out.body@
            == Seq::<u8>::empty() && out.headers@ == HeaderMapping::empty().insert(
            "Content-Type"@,
            "text/html"@,
        ).insert("Content-Security-Policy"@, "default-src 'none'"@),
{
}

/// A plain request for a path that the resolver does not have, with dev mode
/// on and a dev server configured, is forwarded to the dev server's base URL
/// joined with the path, with the same method, headers and body, whenever
/// that join gives a URL.
pub proof fn unresolved_path_is_forwarded(
    path: Seq<char>,
    config: GatewayConfigView,
    base: Seq<char>,
    request: LocalRequest,
    step: Step,
)
    requires
        config.dev_mode,
        config.dev_url == Some(base),
        url_join(base, path) is Some,
        step_follows(route_of(false, path, None, config.proxy_base()), request, step),
    ensures
        route_of(false, path, None, config.proxy_base()) == Route::ProxyHttp(
            url_join(base, path)->0,
        ),
        step matches Step::Forward(sent) && sent.url@ == url_join(base, path)->0 && sent.method@
            == request@.method && sent.headers@ == request@.headers && sent.body@
            == request@.body,
{
}

/// What a hook writes is transmitted: a header that it set, fit for the wire,
/// is in the response with the value it gave, whatever stood under that name
/// before; and every other header is in the response exactly when it would
/// have been without the write.
pub proof fn hook_write_is_transmitted(
    before: HeaderMapping,
    name: Seq<char>,
    value: Seq<char>,
    other: Seq<char>,
)
    requires
        is_wire_header((name, value)),
        other != name,
    ensures
        sendable(before.insert(name, value)).contains_key(name),
        sendable(before.insert(name, value))[name] == value,
        sendable(before.insert(name, value)).contains_key(other) <==> sendable(before).contains_key(
            other,
        ),
        sendable(before).contains_key(other) ==> sendable(before.insert(name, value))[other]
            == sendable(before)[other],
{
}

/// A hook that writes nothing leaves the default headers of an asset as they
/// are: the response carries each default that is fit for the wire.
pub proof fn defaults_are_transmitted(mime_type: Seq<char>, csp: Seq<char>)
    requires
        is_header_value(mime_type),
        is_header_value(csp),
    ensures
        sendable(asset_defaults(mime_type, None)) == asset_defaults(mime_type, None),
        sendable(asset_defaults(mime_type, Some(csp))) == asset_defaults(mime_type, Some(csp)),
{
    own_header_names_are_sendable();
    assert(sendable(asset_defaults(mime_type, Some(csp))) =~= asset_defaults(
        mime_type,
        Some(csp),
    ));
}

/// The response to a request that found nothing needs no filtering: both of
/// its headers are fit for the wire.
pub proof fn not_found_headers_are_sendable()
    ensures
        sendable(not_found_headers()) == not_found_headers(),
{
    own_header_names_are_sendable();
    reveal_strlit("text/html");
    reveal_strlit("default-src 'none'");
}

/// Once both ends of a tunnel are established, in either order, both relays
/// run.
pub proof fn tunnel_opens_when_both_ends_are_ready<M>(inbound_first: bool)
    ensures
        ({
            let first = if inbound_first {
                TunnelEvent::<M>::InboundReady
            } else {
                TunnelEvent::<M>::UpstreamReady
            };
            let second = if inbound_first {
                TunnelEvent::<M>::UpstreamReady
            } else {
                TunnelEvent::<M>::InboundReady
            };
            let midway = advance(TunnelState::initial(), first);
            let opened = advance(midway.0, second);
            &&& midway.0 is Upgrading
            &&& midway.1 is Wait
            &&& opened.0 == TunnelState::Open
            &&& opened.1 is StartRelays
            &&& opened.0.runs(Relay::ToUpstream)
            &&& opened.0.runs(Relay::ToClient)
        }),
{
}

/// A relay hands on what it reads: while it runs, a frame read from the
/// client is written to the dev server as it is, a frame read from the dev
/// server is written to the client as it is, and the state stays. A relay
/// that does not run writes nothing.
pub proof fn tunnel_relays_frames_unchanged<M>(state: TunnelState, frame: M)
    ensures
        state.runs(Relay::ToUpstream) ==> advance(
            state,
            TunnelEvent::FromClient(Reading::Frame(frame)),
        ) == (state, TunnelAction::SendToUpstream(frame)),
        state.runs(Relay::ToClient) ==> advance(
            state,
            TunnelEvent::FromUpstream(Reading::Frame(frame)),
        ) == (state, TunnelAction::SendToClient(frame)),
        !state.runs(Relay::ToUpstream) ==> advance(
            state,
            TunnelEvent::FromClient(Reading::Frame(frame)),
        ) == (state, TunnelAction::<M>::Wait),
        !state.runs(Relay::ToClient) ==> advance(
            state,
            TunnelEvent::FromUpstream(Reading::Frame(frame)),
        ) == (state, TunnelAction::<M>::Wait),
{
}

/// The end of one relay does not stop the other, and a relay that has ended
/// never runs again: whatever the event, a relay runs afterwards only if it
/// ran before or the tunnel has just opened.
pub proof fn tunnel_ends_one_relay_at_a_time<M>(
    state: TunnelState,
    event: TunnelEvent<M>,
    relay: Relay,
)
    ensures
        advance(state, event).0.runs(relay) ==> state.runs(relay) || state is Upgrading,
        state.is_over() ==> advance(state, event) == (state, TunnelAction::<M>::Wait),
        state == TunnelState::Open && (event matches TunnelEvent::FromClient(reading)
            && !(reading is Frame)) ==> advance(state, event).0.runs(Relay::ToClient) && !advance(
            state,
            event,
        ).0.runs(Relay::ToUpstream),
        state == TunnelState::Open && (event matches TunnelEvent::FromUpstream(reading)
            && !(reading is Frame)) ==> advance(state, event).0.runs(Relay::ToUpstream)
            && !advance(state, event).0.runs(Relay::ToClient),
{
}

} // verus!
