//! The connection acceptor's decisions: what drives the listener, and what
//! becomes of each attempt to accept a connection.

use crate::config::Scheduling;
use vstd::prelude::*;

verus! {

/// What drives the listener and the connections.
#[derive(Clone, Copy, Debug, PartialEq, Eq, Structural)]
pub enum Driver {
    /// A dedicated thread that serves one request after the other.
    BlockingThread,
    /// The scheduler that already runs in the hosting process.
    AmbientScheduler,
    /// A multi-worker scheduler of the gateway's own, on a thread of its own.
    DedicatedScheduler,
}

/// How the gateway serves: its driver, whether connections are served side
/// by side, and whether a connection is kept for further requests.
#[derive(Clone, Copy, Debug, PartialEq, Eq, Structural)]
pub struct ServePlan {
    pub driver: Driver,
    pub concurrent: bool,
    pub keep_alive: bool,
}

/// The plan for a scheduling strategy, given whether a scheduler already runs
/// in the hosting process.
pub open spec fn plan_of(scheduling: Scheduling, ambient: bool) -> ServePlan {
    match scheduling {
        Scheduling::Blocking => ServePlan {
            driver: Driver::BlockingThread,
            concurrent: false,
            keep_alive: false,
        },
        Scheduling::Multiplexed => ServePlan {
            driver: if ambient {
                Driver::AmbientScheduler
            } else {
                Driver::DedicatedScheduler
            },
            concurrent: true,
            keep_alive: true,
        },
    }
}

/// Chooses how the gateway serves. A blocking gateway never looks for a
/// scheduler; a multiplexed one attaches to the scheduler that runs already
/// and provides its own only where none does.
pub fn serve_plan(scheduling: Scheduling, ambient: bool) -> (plan: ServePlan)
    ensures
        plan == plan_of(scheduling, ambient),
{
    match scheduling {
        Scheduling::Blocking => ServePlan {
            driver: Driver::BlockingThread,
            concurrent: false,
            keep_alive: false,
        },
        Scheduling::Multiplexed => ServePlan {
            driver: if ambient {
                Driver::AmbientScheduler
            } else {
                Driver::DedicatedScheduler
            },
            concurrent: true,
            keep_alive: true,
        },
    }
}

/// What becomes of one attempt to accept a connection.
#[derive(Clone, Copy, Debug, PartialEq, Eq, Structural)]
pub enum Admission {
    /// Serve the connection.
    Serve,
    /// Nothing was accepted; go on listening.
    Skip,
}

/// Decides what becomes of one attempt to accept a connection. A failed
/// attempt never stops the listener.
pub fn on_accept(accepted: bool) -> (admission: Admission)
    ensures
        admission == if accepted {
            Admission::Serve
        } else {
            Admission::Skip
        },
{
    if accepted {
        Admission::Serve
    } else {
        Admission::Skip
    }
}

} // verus!
