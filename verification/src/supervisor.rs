//! Supervision of the long-running tasks.
//!
//! After startup, the runtime races its transport-worker groups, the
//! operators' run future, the shutdown signal and (for discovery-based
//! transports) the query responder, and hands the first completion to this
//! module. The verdict says whether the node leaves its run loop and
//! whether the completion is reported as an error; no completion is ever
//! propagated as a failure of the run itself — errors are logged, not
//! returned.
//!
//! With a single node the worker groups finish at once for want of peers,
//! so their completions are observed before the race and treated as
//! non-fatal; with several nodes a worker failure ends the run. This
//! asymmetry is deliberate and preserved here.

use vstd::prelude::*;
use crate::errors::CommunicationError;

verus! {

/// The four groups of long-lived transport workers, one task per peer
/// per group.
#[derive(Clone, Copy, Debug, PartialEq, Eq, Structural)]
pub enum WorkerGroup {
    ControlSenders,
    ControlReceivers,
    DataSenders,
    DataReceivers,
}

/// First completion observed by the supervisor's race.
#[derive(Clone, Debug, PartialEq, Eq)]
pub enum SupervisorEvent {
    /// A transport-worker group ended with the given error.
    WorkerGroupFailed(WorkerGroup, CommunicationError),
    /// The operators' run future ended with an error description.
    OperatorsFailed(String),
    /// Every local operator ran to completion; the node keeps waiting for
    /// a shutdown request.
    OperatorsFinished,
    /// The shutdown channel delivered a request.
    ShutdownRequested,
    /// The transport's query responder stopped: discovery is degraded.
    DiscoveryHandlerStopped,
}

/// What the supervisor decides on a completion: whether the node leaves
/// its run loop, and whether the completion is logged as an error.
#[derive(Clone, Copy, Debug, PartialEq, Eq, Structural)]
pub struct SupervisorVerdict {
    pub exits: bool,
    pub reports_error: bool,
}

/// The supervision rule. Worker failures are fatal only when the run has
/// peers: with one node the workers finish immediately and any error from
/// them is non-fatal noise. Operator completion alone never ends the run;
/// operator failure, shutdown and a degraded transport do.
pub open spec fn supervisor_verdict(num_nodes: int, ev: SupervisorEvent) -> SupervisorVerdict {
    match ev {
        SupervisorEvent::WorkerGroupFailed(_, _) => SupervisorVerdict {
            exits: num_nodes > 1,
            reports_error: true,
        },
        SupervisorEvent::OperatorsFailed(_) => SupervisorVerdict {
            exits: true,
            reports_error: true,
        },
        SupervisorEvent::OperatorsFinished => SupervisorVerdict {
            exits: false,
            reports_error: false,
        },
        SupervisorEvent::ShutdownRequested => SupervisorVerdict {
            exits: true,
            reports_error: false,
        },
        SupervisorEvent::DiscoveryHandlerStopped => SupervisorVerdict {
            exits: true,
            reports_error: false,
        },
    }
}

/// Executable twin of [`supervisor_verdict`].
pub fn supervise(num_nodes: usize, ev: &SupervisorEvent) -> (v: SupervisorVerdict)
    ensures
        v == supervisor_verdict(num_nodes as int, *ev),
{
    match ev {
        SupervisorEvent::WorkerGroupFailed(_, _) => SupervisorVerdict {
            exits: num_nodes > 1,
            reports_error: true,
        },
        SupervisorEvent::OperatorsFailed(_) => SupervisorVerdict {
            exits: true,
            reports_error: true,
        },
        SupervisorEvent::OperatorsFinished => SupervisorVerdict {
            exits: false,
            reports_error: false,
        },
        SupervisorEvent::ShutdownRequested => SupervisorVerdict {
            exits: true,
            reports_error: false,
        },
        SupervisorEvent::DiscoveryHandlerStopped => SupervisorVerdict {
            exits: true,
            reports_error: false,
        },
    }
}

/// A transport failure during steady state ends the run with the error
/// logged, never propagated: whatever completion the race observes, the
/// verdict only exits and reports — it carries no failure out of the run.
pub proof fn lemma_peer_failure_contained(num_nodes: int, g: WorkerGroup, e: CommunicationError)
    requires
        num_nodes > 1,
    ensures
        supervisor_verdict(num_nodes, SupervisorEvent::WorkerGroupFailed(g, e)).exits,
        supervisor_verdict(num_nodes, SupervisorEvent::WorkerGroupFailed(g, e)).reports_error,
{
}

} // verus!
