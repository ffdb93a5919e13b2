//! The WebSocket tunnel between an upgraded inbound connection and the dev
//! server: a state machine that says, for each event, what to do next.
//!
//! Two relays make a tunnel. One carries what the client sends to the dev
//! server, the other carries what the dev server sends to the client. Frames
//! are values of any type `M`: the tunnel hands them on and never looks
//! inside.

use vstd::prelude::*;

verus! {

/// One of the two relays of a tunnel, named by where it delivers.
#[derive(Clone, Copy, Debug, PartialEq, Eq, Structural)]
pub enum Relay {
    /// Reads from the client, writes to the dev server.
    ToUpstream,
    /// Reads from the dev server, writes to the client.
    ToClient,
}

/// Where a tunneled session stands.
#[derive(Clone, Copy, Debug, PartialEq, Eq, Structural)]
pub enum TunnelState {
    /// The two ends are being established; no relay runs yet.
    Upgrading { inbound_ready: bool, upstream_ready: bool },
    /// Both relays run.
    Open,
    /// One relay has ended; the named one still runs.
    Closing(Relay),
    /// Both relays have ended.
    Closed,
    /// An end could not be established; no relay ever ran.
    Aborted,
}

/// What one read from an end of the tunnel gave.
#[derive(Debug)]
pub enum Reading<M> {
    /// A frame.
    Frame(M),
    /// The end of the stream.
    Ended,
    /// An error.
    Failed,
}

/// What happened to a tunneled session.
#[derive(Debug)]
pub enum TunnelEvent<M> {
    /// The inbound upgrade handshake was completed.
    InboundReady,
    /// The inbound upgrade handshake failed.
    InboundFailed,
    /// The connection to the dev server was established.
    UpstreamReady,
    /// The connection to the dev server could not be established.
    UpstreamFailed,
    /// A read from the client returned.
    FromClient(Reading<M>),
    /// A read from the dev server returned.
    FromUpstream(Reading<M>),
    /// A frame could not be written by the named relay.
    SendFailed(Relay),
}

/// What to do for a tunneled session.
#[derive(Debug)]
pub enum TunnelAction<M> {
    /// Nothing; wait for the next event.
    Wait,
    /// Split both ends and start the two relays.
    StartRelays,
    /// Write this frame to the dev server.
    SendToUpstream(M),
    /// Write this frame to the client.
    SendToClient(M),
    /// Report that a frame was lost; the relay goes on.
    ReportLoss(Relay),
    /// Report the failure and drop both ends.
    Abort,
    /// Drop both ends.
    Finish,
}

impl TunnelState {
    /// The state of a session whose upgrade has just been decided.
    pub open spec fn initial() -> TunnelState {
        TunnelState::Upgrading { inbound_ready: false, upstream_ready: false }
    }

    /// Whether the named relay runs in this state.
    pub open spec fn runs(self, relay: Relay) -> bool {
        match self {
            TunnelState::Open => true,
            TunnelState::Closing(remaining) => remaining == relay,
            _ => false,
        }
    }

    /// Whether the session is over.
    pub open spec fn is_over(self) -> bool {
        self is Closed || self is Aborted
    }

    /// The state after the named relay has ended.
    pub open spec fn without(self, relay: Relay) -> TunnelState {
        match self {
            TunnelState::Open => match relay {
                Relay::ToUpstream => TunnelState::Closing(Relay::ToClient),
                Relay::ToClient => TunnelState::Closing(Relay::ToUpstream),
            },
            TunnelState::Closing(remaining) => if remaining == relay {
                TunnelState::Closed
            } else {
                self
            },
            _ => self,
        }
    }

    /// The state after one more end has been established.
    pub open spec fn with_end(self, inbound: bool) -> TunnelState {
        match self {
            TunnelState::Upgrading { inbound_ready, upstream_ready } => {
                let inbound_ready = inbound_ready || inbound;
                let upstream_ready = upstream_ready || !inbound;
                if inbound_ready && upstream_ready {
                    TunnelState::Open
                } else {
                    TunnelState::Upgrading { inbound_ready, upstream_ready }
                }
            },
            _ => self,
        }
    }
}

/// What a relay does with a reading while it runs.
pub open spec fn relay_reading<M>(state: TunnelState, relay: Relay, reading: Reading<M>) -> (
    TunnelState,
    TunnelAction<M>,
) {
    if !state.runs(relay) {
        (state, TunnelAction::Wait)
    } else {
        match reading {
            Reading::Frame(frame) => match relay {
                Relay::ToUpstream => (state, TunnelAction::SendToUpstream(frame)),
                Relay::ToClient => (state, TunnelAction::SendToClient(frame)),
            },
            _ => {
                let next = state.without(relay);
                if next is Closed {
                    (next, TunnelAction::Finish)
                } else {
                    (next, TunnelAction::Wait)
                }
            },
        }
    }
}

/// The next state and the action for an event.
pub open spec fn advance<M>(state: TunnelState, event: TunnelEvent<M>) -> (
    TunnelState,
    TunnelAction<M>,
) {
    match event {
        TunnelEvent::InboundReady => {
            let next = state.with_end(true);
            if state is Upgrading && next is Open {
                (next, TunnelAction::StartRelays)
            } else {
                (next, TunnelAction::Wait)
            }
        },
        TunnelEvent::UpstreamReady => {
            let next = state.with_end(false);
            if state is Upgrading && next is Open {
                (next, TunnelAction::StartRelays)
            } else {
                (next, TunnelAction::Wait)
            }
        },
        TunnelEvent::InboundFailed | TunnelEvent::UpstreamFailed => if state is Upgrading {
            (TunnelState::Aborted, TunnelAction::Abort)
        } else {
            (state, TunnelAction::Wait)
        },
        TunnelEvent::FromClient(reading) => relay_reading(state, Relay::ToUpstream, reading),
        TunnelEvent::FromUpstream(reading) => relay_reading(state, Relay::ToClient, reading),
        TunnelEvent::SendFailed(relay) => if state.runs(relay) {
            (state, TunnelAction::ReportLoss(relay))
        } else {
            (state, TunnelAction::Wait)
        },
    }
}

/// The state of a session whose upgrade has just been decided.
pub fn start() -> (state: TunnelState)
    ensures
        state == TunnelState::initial(),
{
    TunnelState::Upgrading { inbound_ready: false, upstream_ready: false }
}

/// Whether the named relay runs in `state`, so that its end is worth reading.
pub fn relay_runs(state: TunnelState, relay: Relay) -> (runs: bool)
    ensures
        runs == state.runs(relay),
{
    match state {
        TunnelState::Open => true,
        TunnelState::Closing(remaining) => remaining == relay,
        _ => false,
    }
}

/// Whether the session in `state` is over, so that no event can change it.
pub fn session_over(state: TunnelState) -> (over: bool)
    ensures
        over == state.is_over(),
{
    match state {
        TunnelState::Closed => true,
        TunnelState::Aborted => true,
        _ => false,
    }
}

fn on_reading<M>(state: TunnelState, relay: Relay, reading: Reading<M>) -> (r: (
    TunnelState,
    TunnelAction<M>,
))
    ensures
        r == relay_reading(state, relay, reading),
{
    if !relay_runs(state, relay) {
        return (state, TunnelAction::Wait);
    }
    match reading {
        Reading::Frame(frame) => match relay {
            Relay::ToUpstream => (state, TunnelAction::SendToUpstream(frame)),
            Relay::ToClient => (state, TunnelAction::SendToClient(frame)),
        },
        _ => match state {
            TunnelState::Open => match relay {
                Relay::ToUpstream => (TunnelState::Closing(Relay::ToClient), TunnelAction::Wait),
                Relay::ToClient => (TunnelState::Closing(Relay::ToUpstream), TunnelAction::Wait),
            },
            _ => (TunnelState::Closed, TunnelAction::Finish),
        },
    }
}

fn on_ready<M>(state: TunnelState, inbound: bool) -> (r: (TunnelState, TunnelAction<M>))
    ensures
        r.0 == state.with_end(inbound),
        r.1 == if state is Upgrading && r.0 is Open {
            TunnelAction::<M>::StartRelays
        } else {
            TunnelAction::<M>::Wait
        },
{
    match state {
        TunnelState::Upgrading { inbound_ready, upstream_ready } => {
            let inbound_ready = inbound_ready || inbound;
            let upstream_ready = upstream_ready || !inbound;
            if inbound_ready && upstream_ready {
                (TunnelState::Open, TunnelAction::StartRelays)
            } else {
                (TunnelState::Upgrading { inbound_ready, upstream_ready }, TunnelAction::Wait)
            }
        },
        _ => (state, TunnelAction::Wait),
    }
}

/// Takes one event of a tunneled session and says what the session's state
/// is now and what to do.
pub fn step<M>(state: TunnelState, event: TunnelEvent<M>) -> (r: (TunnelState, TunnelAction<M>))
    ensures
        r == advance(state, event),
{
    match event {
        TunnelEvent::InboundReady => on_ready(state, true),
        TunnelEvent::UpstreamReady => on_ready(state, false),
        TunnelEvent::InboundFailed | TunnelEvent::UpstreamFailed => match state {
            TunnelState::Upgrading { .. } => (TunnelState::Aborted, TunnelAction::Abort),
            _ => (state, TunnelAction::Wait),
        },
        TunnelEvent::FromClient(reading) => on_reading(state, Relay::ToUpstream, reading),
        TunnelEvent::FromUpstream(reading) => on_reading(state, Relay::ToClient, reading),
        TunnelEvent::SendFailed(relay) => if relay_runs(state, relay) {
            (state, TunnelAction::ReportLoss(relay))
        } else {
            (state, TunnelAction::Wait)
        },
    }
}

} // verus!
