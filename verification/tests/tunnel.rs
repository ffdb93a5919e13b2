use tauri_plugin_localhost::tunnel::{
    start, step, Reading, Relay, TunnelAction, TunnelEvent, TunnelState,
};

fn open() -> TunnelState {
    let (state, _) = step::<Vec<u8>>(start(), TunnelEvent::InboundReady);
    let (state, _) = step::<Vec<u8>>(state, TunnelEvent::UpstreamReady);
    state
}

#[test]
fn tunnel_starts_upgrading() {
    assert_eq!(start(), TunnelState::Upgrading { inbound_ready: false, upstream_ready: false });
}

#[test]
fn tunnel_opens_after_both_ends_in_either_order() {
    let (state, action) = step::<Vec<u8>>(start(), TunnelEvent::InboundReady);
    assert_eq!(state, TunnelState::Upgrading { inbound_ready: true, upstream_ready: false });
    assert!(matches!(action, TunnelAction::Wait));
    let (state, action) = step::<Vec<u8>>(state, TunnelEvent::UpstreamReady);
    assert_eq!(state, TunnelState::Open);
    assert!(matches!(action, TunnelAction::StartRelays));

    let (state, action) = step::<Vec<u8>>(start(), TunnelEvent::UpstreamReady);
    assert_eq!(state, TunnelState::Upgrading { inbound_ready: false, upstream_ready: true });
    assert!(matches!(action, TunnelAction::Wait));
    let (state, action) = step::<Vec<u8>>(state, TunnelEvent::InboundReady);
    assert_eq!(state, TunnelState::Open);
    assert!(matches!(action, TunnelAction::StartRelays));
}

#[test]
fn repeated_ready_event_does_not_open_the_tunnel() {
    let (state, _) = step::<Vec<u8>>(start(), TunnelEvent::InboundReady);
    let (state, action) = step::<Vec<u8>>(state, TunnelEvent::InboundReady);
    assert_eq!(state, TunnelState::Upgrading { inbound_ready: true, upstream_ready: false });
    assert!(matches!(action, TunnelAction::Wait));
}

#[test]
fn failure_while_upgrading_aborts_before_any_relay() {
    let (state, action) = step::<Vec<u8>>(start(), TunnelEvent::UpstreamFailed);
    assert_eq!(state, TunnelState::Aborted);
    assert!(matches!(action, TunnelAction::Abort));
    let (state, _) = step::<Vec<u8>>(start(), TunnelEvent::InboundReady);
    let (state, action) = step::<Vec<u8>>(state, TunnelEvent::InboundFailed);
    assert_eq!(state, TunnelState::Aborted);
    assert!(matches!(action, TunnelAction::Abort));
    let (state, action) = step(state, TunnelEvent::FromClient(Reading::Frame(vec![1u8])));
    assert_eq!(state, TunnelState::Aborted);
    assert!(matches!(action, TunnelAction::Wait));
}

#[test]
fn frames_are_not_relayed_while_upgrading() {
    let (state, action) = step(start(), TunnelEvent::FromClient(Reading::Frame(vec![1u8])));
    assert_eq!(state, start());
    assert!(matches!(action, TunnelAction::Wait));
}

#[test]
fn frames_cross_the_tunnel_byte_identical_in_both_directions() {
    let payload: Vec<u8> = (0..=255).collect();
    let (state, action) = step(open(), TunnelEvent::FromClient(Reading::Frame(payload.clone())));
    assert_eq!(state, TunnelState::Open);
    match action {
        TunnelAction::SendToUpstream(frame) => assert_eq!(frame, payload),
        _ => panic!("a client frame goes to the dev server"),
    }
    let (state, action) = step(open(), TunnelEvent::FromUpstream(Reading::Frame(payload.clone())));
    assert_eq!(state, TunnelState::Open);
    match action {
        TunnelAction::SendToClient(frame) => assert_eq!(frame, payload),
        _ => panic!("a dev-server frame goes to the client"),
    }
}

#[test]
fn text_frames_cross_unchanged() {
    let (_, action) = step(open(), TunnelEvent::FromClient(Reading::Frame("h\u{e9}llo".to_string())));
    match action {
        TunnelAction::SendToUpstream(frame) => assert_eq!(frame, "h\u{e9}llo"),
        _ => panic!("a client frame goes to the dev server"),
    }
}

#[test]
fn one_relay_ending_leaves_the_other_running() {
    let (state, action) = step::<Vec<u8>>(open(), TunnelEvent::FromClient(Reading::Ended));
    assert_eq!(state, TunnelState::Closing(Relay::ToClient));
    assert!(matches!(action, TunnelAction::Wait));
    let (state, action) = step(state, TunnelEvent::FromUpstream(Reading::Frame(vec![7u8])));
    assert_eq!(state, TunnelState::Closing(Relay::ToClient));
    assert!(matches!(action, TunnelAction::SendToClient(frame) if frame == vec![7u8]));
    let (state, action) = step(state, TunnelEvent::FromClient(Reading::Frame(vec![8u8])));
    assert_eq!(state, TunnelState::Closing(Relay::ToClient));
    assert!(matches!(action, TunnelAction::Wait));
    let (state, action) = step::<Vec<u8>>(state, TunnelEvent::FromUpstream(Reading::Failed));
    assert_eq!(state, TunnelState::Closed);
    assert!(matches!(action, TunnelAction::Finish));
}

#[test]
fn read_error_ends_a_relay_like_end_of_stream() {
    let (state, action) = step::<Vec<u8>>(open(), TunnelEvent::FromUpstream(Reading::Failed));
    assert_eq!(state, TunnelState::Closing(Relay::ToUpstream));
    assert!(matches!(action, TunnelAction::Wait));
    let (state, action) = step::<Vec<u8>>(state, TunnelEvent::FromClient(Reading::Ended));
    assert_eq!(state, TunnelState::Closed);
    assert!(matches!(action, TunnelAction::Finish));
}

#[test]
fn send_failure_is_reported_and_the_relay_goes_on() {
    let (state, action) = step::<Vec<u8>>(open(), TunnelEvent::SendFailed(Relay::ToUpstream));
    assert_eq!(state, TunnelState::Open);
    assert!(matches!(action, TunnelAction::ReportLoss(Relay::ToUpstream)));
    let (state, action) = step(state, TunnelEvent::FromClient(Reading::Frame(vec![1u8])));
    assert_eq!(state, TunnelState::Open);
    assert!(matches!(action, TunnelAction::SendToUpstream(_)));
}

#[test]
fn closed_tunnel_ignores_everything() {
    let (state, _) = step::<Vec<u8>>(open(), TunnelEvent::FromClient(Reading::Ended));
    let (closed, _) = step::<Vec<u8>>(state, TunnelEvent::FromUpstream(Reading::Ended));
    assert_eq!(closed, TunnelState::Closed);
    let (state, action) = step(closed, TunnelEvent::FromClient(Reading::Frame(vec![1u8])));
    assert_eq!(state, TunnelState::Closed);
    assert!(matches!(action, TunnelAction::Wait));
    let (state, action) = step::<Vec<u8>>(closed, TunnelEvent::UpstreamReady);
    assert_eq!(state, TunnelState::Closed);
    assert!(matches!(action, TunnelAction::Wait));
    let (state, action) = step::<Vec<u8>>(closed, TunnelEvent::SendFailed(Relay::ToClient));
    assert_eq!(state, TunnelState::Closed);
    assert!(matches!(action, TunnelAction::Wait));
}
