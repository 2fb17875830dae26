//! The node orchestrator's lifecycle state machine.
//!
//! A node moves through a strict sequence of startup phases: the
//! communication-layer handshake, local operator setup, the global barrier
//! across all nodes, release of the driver, and steady-state running. The
//! surrounding runtime owns the transports, task scheduler and channels; it
//! feeds every received control message into this state machine and carries
//! out the actions it returns. The ordering constraints of the protocol —
//! no operator setup before the handshake is over, no driver release before
//! every node reports ready, no run order before release — are enforced
//! here by the phase preconditions and proved as invariants.

use vstd::prelude::*;
use crate::barrier::{
    all_true, seeded_flags, CommBarrierView, CommLane, OperatorBarrier, OperatorBarrierView,
    PeerSet, lemma_operator_barrier_complete_observes_all,
};
use crate::config::Configuration;
use crate::control::{ControlMessage, NodeId, OperatorId};
use crate::errors::CommunicationError;

verus! {

/// Startup phase of the node; the phases advance in declaration order, and
/// `Aborted` is terminal.
#[derive(Clone, Copy, Debug, PartialEq, Eq, Structural)]
pub enum NodePhase {
    /// Collecting the four worker-readiness reports of every peer.
    CommHandshake,
    /// Local operators have been spawned; collecting their setup reports.
    OperatorSetup,
    /// Own readiness broadcast; collecting every node's readiness report.
    GlobalBarrier,
    /// All nodes ready; the driver's latch has been released.
    Ready,
    /// Run orders have been handed to the local operators.
    Running,
    /// A protocol violation ended startup.
    Aborted,
}

/// The verified core of one runtime instance: its configuration and the
/// lifecycle state machine that drives startup and release.
pub struct Node {
    config: Configuration,
    id: NodeId,
    phase: NodePhase,
    control_senders: PeerSet,
    control_receivers: PeerSet,
    data_senders: PeerSet,
    data_receivers: PeerSet,
    local_operators: Vec<OperatorId>,
    operators: OperatorBarrier,
    nodes_ready: PeerSet,
    initialized: bool,
}

impl Node {
    /// This node's index.
    pub closed spec fn spec_id(self) -> NodeId {
        self.id
    }

    /// Number of nodes in the run.
    pub closed spec fn spec_num_nodes(self) -> int {
        self.config.spec_num_nodes()
    }

    /// The configuration the node was built from.
    pub closed spec fn spec_config(self) -> Configuration {
        self.config
    }

    /// Current startup phase.
    pub closed spec fn phase(self) -> NodePhase {
        self.phase
    }

    /// State of the communication-layer handshake.
    pub closed spec fn comm(self) -> CommBarrierView {
        CommBarrierView {
            control_senders: self.control_senders@,
            control_receivers: self.control_receivers@,
            data_senders: self.data_senders@,
            data_receivers: self.data_receivers@,
        }
    }

    /// State of the local-operator barrier.
    pub closed spec fn operators(self) -> OperatorBarrierView {
        self.operators@
    }

    /// The ids of the operators scheduled on this node, in spawn order.
    pub closed spec fn local_ops(self) -> Seq<OperatorId> {
        self.local_operators@
    }

    /// Which nodes have reported that all of their operators are ready.
    pub closed spec fn nodes_ready(self) -> Seq<bool> {
        self.nodes_ready@
    }

    /// Whether the driver's latch has been released (startup reached its
    /// final barrier). Flips false to true exactly once, in
    /// [`Node::set_node_initialized`].
    pub closed spec fn is_initialized(self) -> bool {
        self.initialized
    }

    /// The node's internal invariant: barriers sized to the run, no
    /// duplicate operator records, the node's own reports seeded, and each
    /// phase reachable only once the barriers before it have opened.
    pub closed spec fn wf(self) -> bool {
        &&& self.config.wf()
        &&& self.id == self.config.index
        &&& self.comm().wf(self.spec_num_nodes())
        &&& self.nodes_ready@.len() == self.spec_num_nodes()
        &&& self.operators@.wf()
        &&& self.operators@.expected == self.local_operators@.len()
        &&& self.local_operators@.no_duplicates()
        &&& self.comm().lane_seen(CommLane::ControlSender, self.id)
        &&& self.comm().lane_seen(CommLane::ControlReceiver, self.id)
        &&& self.comm().lane_seen(CommLane::DataSender, self.id)
        &&& self.comm().lane_seen(CommLane::DataReceiver, self.id)
        &&& self.nodes_ready@[self.id as int]
        &&& (self.initialized <==> (self.phase == NodePhase::Ready || self.phase
            == NodePhase::Running))
        &&& (self.phase == NodePhase::CommHandshake ==> self.local_operators@.len() == 0)
        &&& ((self.phase == NodePhase::OperatorSetup || self.phase == NodePhase::GlobalBarrier
            || self.phase == NodePhase::Ready || self.phase == NodePhase::Running)
            ==> self.comm().complete())
        &&& ((self.phase == NodePhase::GlobalBarrier || self.phase == NodePhase::Ready
            || self.phase == NodePhase::Running) ==> self.operators@.complete())
        &&& ((self.phase == NodePhase::Ready || self.phase == NodePhase::Running)
            ==> all_true(self.nodes_ready@))
    }

    /// Creates a new node from validated configuration. The node starts in
    /// the handshake phase with every barrier counting only itself.
    pub fn new(config: Configuration) -> (n: Node)
        requires
            config.wf(),
        ensures
            n.wf(),
            n.spec_config() == config,
            n.spec_id() == config.index,
            n.spec_num_nodes() == config.spec_num_nodes(),
            n.phase() == NodePhase::CommHandshake,
            !n.is_initialized(),
            n.comm().control_senders == seeded_flags(config.spec_num_nodes(), config.index as int),
            n.comm().control_receivers == seeded_flags(
                config.spec_num_nodes(),
                config.index as int,
            ),
            n.comm().data_senders == seeded_flags(config.spec_num_nodes(), config.index as int),
            n.comm().data_receivers == seeded_flags(config.spec_num_nodes(), config.index as int),
            n.nodes_ready() == seeded_flags(config.spec_num_nodes(), config.index as int),
            n.local_ops() == Seq::<OperatorId>::empty(),
            n.operators().observed == Seq::<OperatorId>::empty(),
    {
        let id = config.index;
        let num_nodes = config.num_nodes();
        Node {
            config,
            id,
            phase: NodePhase::CommHandshake,
            control_senders: PeerSet::new(num_nodes, id),
            control_receivers: PeerSet::new(num_nodes, id),
            data_senders: PeerSet::new(num_nodes, id),
            data_receivers: PeerSet::new(num_nodes, id),
            local_operators: Vec::new(),
            operators: OperatorBarrier::new(0),
            nodes_ready: PeerSet::new(num_nodes, id),
            initialized: false,
        }
    }

    /// Executable twin of [`Self::spec_id`].
    pub fn node_id(&self) -> (id: NodeId)
        ensures
            id == self.spec_id(),
    {
        self.id
    }

    /// Executable twin of [`Self::spec_num_nodes`].
    pub fn num_nodes(&self) -> (n: usize)
        ensures
            n as int == self.spec_num_nodes(),
    {
        self.config.num_nodes()
    }

    /// Read access to the configuration, for the runtime around the core.
    pub fn configuration(&self) -> (c: &Configuration)
        ensures
            *c == self.spec_config(),
    {
        &self.config
    }

    /// Executable twin of [`Self::phase`].
    pub fn current_phase(&self) -> (p: NodePhase)
        ensures
            p == self.phase(),
    {
        self.phase
    }

    /// Executable twin of [`Self::is_initialized`].
    pub fn initialized(&self) -> (b: bool)
        ensures
            b == self.is_initialized(),
    {
        self.initialized
    }

    /// Feeds one control message into the communication-layer handshake.
    /// A readiness report naming a node of the run is recorded; anything
    /// else is a protocol violation that aborts startup.
    pub fn handle_comm_init_message(&mut self, msg: &ControlMessage) -> (r: Result<
        (),
        CommunicationError,
    >)
        requires
            old(self).wf(),
            old(self).phase() == NodePhase::CommHandshake,
        ensures
            final(self).wf(),
            final(self).spec_config() == old(self).spec_config(),
            final(self).spec_id() == old(self).spec_id(),
            final(self).local_ops() == old(self).local_ops(),
            final(self).operators() == old(self).operators(),
            final(self).nodes_ready() == old(self).nodes_ready(),
            final(self).is_initialized() == old(self).is_initialized(),
            if msg.is_comm_layer_init() && (msg.spec_carried_id() as int) < old(
                self,
            ).spec_num_nodes() {
                &&& r == Ok::<(), CommunicationError>(())
                &&& final(self).phase() == NodePhase::CommHandshake
                &&& final(self).comm() == old(self).comm().step(*msg)
            } else {
                &&& r == Err::<(), CommunicationError>(CommunicationError::ProtocolViolation)
                &&& final(self).phase() == NodePhase::Aborted
                &&& final(self).comm() == old(self).comm()
            },
    {
        let num_nodes = self.config.num_nodes();
        match msg {
            ControlMessage::ControlSenderInitialized(n) => {
                if *n < num_nodes {
                    self.control_senders.record(*n);
                    Ok(())
                } else {
                    self.phase = NodePhase::Aborted;
                    Err(CommunicationError::ProtocolViolation)
                }
            },
            ControlMessage::ControlReceiverInitialized(n) => {
                if *n < num_nodes {
                    self.control_receivers.record(*n);
                    Ok(())
                } else {
                    self.phase = NodePhase::Aborted;
                    Err(CommunicationError::ProtocolViolation)
                }
            },
            ControlMessage::DataSenderInitialized(n) => {
                if *n < num_nodes {
                    self.data_senders.record(*n);
                    Ok(())
                } else {
                    self.phase = NodePhase::Aborted;
                    Err(CommunicationError::ProtocolViolation)
                }
            },
            ControlMessage::DataReceiverInitialized(n) => {
                if *n < num_nodes {
                    self.data_receivers.record(*n);
                    Ok(())
                } else {
                    self.phase = NodePhase::Aborted;
                    Err(CommunicationError::ProtocolViolation)
                }
            },
            _ => {
                self.phase = NodePhase::Aborted;
                Err(CommunicationError::ProtocolViolation)
            },
        }
    }

    /// Whether every peer has reported readiness of all four workers: the
    /// handshake phase ends exactly then.
    pub fn communication_layer_initialized(&self) -> (b: bool)
        ensures
            b == self.comm().complete(),
    {
        self.control_senders.all_seen() && self.control_receivers.all_seen()
            && self.data_senders.all_seen() && self.data_receivers.all_seen()
    }

    /// Enters operator setup with the ids of the operators scheduled on
    /// this node. Refuses a duplicate id — declaring an operator twice is a
    /// programmer error that aborts startup — and refuses to run before the
    /// handshake is over.
    pub fn begin_operator_setup(&mut self, local_operators: Vec<OperatorId>) -> (r: Result<
        (),
        CommunicationError,
    >)
        requires
            old(self).wf(),
            old(self).phase() == NodePhase::CommHandshake,
            old(self).comm().complete(),
        ensures
            final(self).wf(),
            final(self).spec_config() == old(self).spec_config(),
            final(self).spec_id() == old(self).spec_id(),
            final(self).comm() == old(self).comm(),
            final(self).nodes_ready() == old(self).nodes_ready(),
            final(self).is_initialized() == old(self).is_initialized(),
            if local_operators@.no_duplicates() {
                &&& r == Ok::<(), CommunicationError>(())
                &&& final(self).phase() == NodePhase::OperatorSetup
                &&& final(self).local_ops() == local_operators@
                &&& final(self).operators() == (OperatorBarrierView {
                    expected: local_operators@.len() as int,
                    observed: Seq::<OperatorId>::empty(),
                })
            } else {
                &&& r == Err::<(), CommunicationError>(CommunicationError::ProtocolViolation)
                &&& final(self).phase() == NodePhase::Aborted
                &&& final(self).local_ops() == old(self).local_ops()
                &&& final(self).operators() == old(self).operators()
            },
    {
        let n = local_operators.len();
        let mut i: usize = 0;
        while i < n
            invariant
                *self == *old(self),
                old(self).wf(),
                old(self).phase() == NodePhase::CommHandshake,
                i <= n,
                n as int == local_operators@.len(),
                forall|a: int, b: int|
                    0 <= a < b < local_operators@.len() && a < i ==> local_operators@[a]
                        != local_operators@[b],
            decreases n - i,
        {
            let mut j: usize = i + 1;
            while j < n
                invariant
                    *self == *old(self),
                    old(self).wf(),
                    old(self).phase() == NodePhase::CommHandshake,
                    i < j <= n,
                    n as int == local_operators@.len(),
                    forall|b: int| i < b < j ==> local_operators@[i as int] != local_operators@[b],
                decreases n - j,
            {
                if local_operators[i] == local_operators[j] {
                    self.phase = NodePhase::Aborted;
                    return Err(CommunicationError::ProtocolViolation);
                }
                j = j + 1;
            }
            i = i + 1;
        }
        self.operators = OperatorBarrier::new(n);
        self.local_operators = local_operators;
        self.phase = NodePhase::OperatorSetup;
        Ok(())
    }

    /// Feeds one message from the local operators' channel into the
    /// local-operator barrier. A setup report is recorded once; everything
    /// else on that channel is ignored.
    pub fn handle_operator_message(&mut self, msg: &ControlMessage)
        requires
            old(self).wf(),
            old(self).phase() == NodePhase::OperatorSetup,
        ensures
            final(self).wf(),
            final(self).spec_config() == old(self).spec_config(),
            final(self).spec_id() == old(self).spec_id(),
            final(self).phase() == old(self).phase(),
            final(self).comm() == old(self).comm(),
            final(self).local_ops() == old(self).local_ops(),
            final(self).nodes_ready() == old(self).nodes_ready(),
            final(self).is_initialized() == old(self).is_initialized(),
            final(self).operators() == old(self).operators().step(*msg),
    {
        self.operators.handle_message(msg);
    }

    /// Whether as many distinct local operators have reported setup as
    /// were spawned: the local barrier opens exactly then.
    pub fn local_operators_initialized(&self) -> (b: bool)
        ensures
            b == self.operators().complete(),
    {
        self.operators.is_complete()
    }

    /// Closes the local barrier and produces the readiness report to
    /// broadcast to every peer; the node then waits at the global barrier.
    pub fn broadcast_local_operators_initialized(&mut self) -> (msg: ControlMessage)
        requires
            old(self).wf(),
            old(self).phase() == NodePhase::OperatorSetup,
            old(self).operators().complete(),
        ensures
            final(self).wf(),
            final(self).spec_config() == old(self).spec_config(),
            final(self).spec_id() == old(self).spec_id(),
            final(self).phase() == NodePhase::GlobalBarrier,
            final(self).comm() == old(self).comm(),
            final(self).local_ops() == old(self).local_ops(),
            final(self).operators() == old(self).operators(),
            final(self).nodes_ready() == old(self).nodes_ready(),
            final(self).is_initialized() == old(self).is_initialized(),
            msg == ControlMessage::AllOperatorsInitializedOnNode(old(self).spec_id()),
    {
        self.phase = NodePhase::GlobalBarrier;
        ControlMessage::AllOperatorsInitializedOnNode(self.id)
    }

    /// Feeds one control message into the global barrier. A readiness
    /// report naming a node of the run is recorded; anything else on the
    /// barrier's channel is a protocol violation that aborts startup.
    pub fn handle_node_initialized_message(&mut self, msg: &ControlMessage) -> (r: Result<
        (),
        CommunicationError,
    >)
        requires
            old(self).wf(),
            old(self).phase() == NodePhase::GlobalBarrier,
        ensures
            final(self).wf(),
            final(self).spec_config() == old(self).spec_config(),
            final(self).spec_id() == old(self).spec_id(),
            final(self).comm() == old(self).comm(),
            final(self).local_ops() == old(self).local_ops(),
            final(self).operators() == old(self).operators(),
            final(self).is_initialized() == old(self).is_initialized(),
            match *msg {
                ControlMessage::AllOperatorsInitializedOnNode(n) => if (n as int) < old(
                    self,
                ).spec_num_nodes() {
                    &&& r == Ok::<(), CommunicationError>(())
                    &&& final(self).phase() == NodePhase::GlobalBarrier
                    &&& final(self).nodes_ready() == old(self).nodes_ready().update(n as int, true)
                } else {
                    &&& r == Err::<(), CommunicationError>(CommunicationError::ProtocolViolation)
                    &&& final(self).phase() == NodePhase::Aborted
                    &&& final(self).nodes_ready() == old(self).nodes_ready()
                },
                _ => {
                    &&& r == Err::<(), CommunicationError>(CommunicationError::ProtocolViolation)
                    &&& final(self).phase() == NodePhase::Aborted
                    &&& final(self).nodes_ready() == old(self).nodes_ready()
                },
            },
    {
        match msg {
            ControlMessage::AllOperatorsInitializedOnNode(n) => {
                if *n < self.config.num_nodes() {
                    self.nodes_ready.record(*n);
                    Ok(())
                } else {
                    self.phase = NodePhase::Aborted;
                    Err(CommunicationError::ProtocolViolation)
                }
            },
            _ => {
                self.phase = NodePhase::Aborted;
                Err(CommunicationError::ProtocolViolation)
            },
        }
    }

    /// Whether every node of the run has reported that all of its
    /// operators are ready: the global barrier opens exactly then.
    pub fn all_nodes_initialized(&self) -> (b: bool)
        ensures
            b == all_true(self.nodes_ready()),
    {
        self.nodes_ready.all_seen()
    }

    /// Releases the driver: the latch flips false to true, exactly once in
    /// the node's lifetime, and only after every node passed its local
    /// barrier.
    pub fn set_node_initialized(&mut self)
        requires
            old(self).wf(),
            old(self).phase() == NodePhase::GlobalBarrier,
            all_true(old(self).nodes_ready()),
        ensures
            final(self).wf(),
            final(self).spec_config() == old(self).spec_config(),
            final(self).spec_id() == old(self).spec_id(),
            final(self).phase() == NodePhase::Ready,
            final(self).comm() == old(self).comm(),
            final(self).local_ops() == old(self).local_ops(),
            final(self).operators() == old(self).operators(),
            final(self).nodes_ready() == old(self).nodes_ready(),
            !old(self).is_initialized() && final(self).is_initialized(),
    {
        self.phase = NodePhase::Ready;
        self.initialized = true;
    }

    /// Produces the run order for every local operator, in spawn order,
    /// and enters steady state. Permitted only after release, so no
    /// operator can be ordered to run before the whole system is ready.
    pub fn run_operator_commands(&mut self) -> (cmds: Vec<ControlMessage>)
        requires
            old(self).wf(),
            old(self).phase() == NodePhase::Ready,
        ensures
            final(self).wf(),
            final(self).spec_config() == old(self).spec_config(),
            final(self).spec_id() == old(self).spec_id(),
            final(self).phase() == NodePhase::Running,
            final(self).comm() == old(self).comm(),
            final(self).local_ops() == old(self).local_ops(),
            final(self).operators() == old(self).operators(),
            final(self).nodes_ready() == old(self).nodes_ready(),
            final(self).is_initialized() == old(self).is_initialized(),
            cmds@.len() == old(self).local_ops().len(),
            forall|i: int|
                0 <= i < cmds@.len() ==> cmds@[i] == ControlMessage::RunOperator(
                    #[trigger] old(self).local_ops()[i],
                ),
    {
        let n = self.local_operators.len();
        let mut cmds: Vec<ControlMessage> = Vec::new();
        let mut i: usize = 0;
        while i < n
            invariant
                i <= n,
                n as int == self.local_operators@.len(),
                cmds@.len() == i as int,
                forall|k: int|
                    0 <= k < i ==> cmds@[k] == ControlMessage::RunOperator(
                        #[trigger] self.local_operators@[k],
                    ),
            decreases n - i,
        {
            cmds.push(ControlMessage::RunOperator(self.local_operators[i]));
            i = i + 1;
        }
        self.phase = NodePhase::Running;
        cmds
    }
}

/// Once the driver is released, every node of the run has reported that
/// all of its operators are initialized: release cannot precede the
/// global barrier.
pub proof fn lemma_release_implies_global_barrier(n: Node)
    requires
        n.wf(),
        n.is_initialized(),
    ensures
        forall|p: int| 0 <= p < n.spec_num_nodes() ==> n.nodes_ready()[p],
        n.comm().complete(),
        n.operators().complete(),
{
}

/// Once the driver is released, every operator scheduled on this node has
/// reported its setup, strictly before any run order can be produced —
/// provided the setup reports that arrived all named local operators.
pub proof fn lemma_release_implies_local_operators_observed(n: Node)
    requires
        n.wf(),
        n.is_initialized(),
        forall|i: int|
            0 <= i < n.operators().observed.len() ==> n.local_ops().contains(
                #[trigger] n.operators().observed[i],
            ),
    ensures
        forall|i: int|
            0 <= i < n.local_ops().len() ==> n.operators().has_observed(
                #[trigger] n.local_ops()[i],
            ),
{
    lemma_operator_barrier_complete_observes_all(n.operators(), n.local_ops());
}

/// A run with a single node and an empty peer set has nothing to wait
/// for: its handshake and its global barrier are complete from the start.
pub proof fn lemma_single_node_barriers_trivial(n: Node)
    requires
        n.wf(),
        n.spec_num_nodes() == 1,
    ensures
        n.comm().complete(),
        all_true(n.nodes_ready()),
{
    assert forall|i: int| 0 <= i < 1 implies n.nodes_ready()[i] by {
        assert(n.spec_id() as int == 0);
    }
    assert(n.comm().control_senders[0]);
    assert(n.comm().control_receivers[0]);
    assert(n.comm().data_senders[0]);
    assert(n.comm().data_receivers[0]);
}

} // verus!
