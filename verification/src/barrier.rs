//! Barrier state machines of the startup protocol.
//!
//! Three barriers bring a node through startup in lockstep with its peers:
//! the communication-layer handshake (one readiness report per peer per
//! worker lane), the local-operator barrier (one setup report per local
//! operator), and the global barrier (one all-operators-ready report per
//! node). Each barrier is a pure state machine: the surrounding runtime
//! awaits events and feeds them in; the barrier decides when the phase is
//! over.

use vstd::prelude::*;
use vstd::pervasive::VecAdditionalExecFns;
use vstd::set_lib::{lemma_len_subset, lemma_subset_equality};
use vstd::seq_lib::seq_to_set_is_finite;
use crate::control::{ControlMessage, NodeId, OperatorId};

verus! {

/// Every entry of the sequence is set.
pub open spec fn all_true(s: Seq<bool>) -> bool {
    forall|i: int| 0 <= i < s.len() ==> s[i]
}

/// Membership flags over `[0, num_nodes)` with only the node's own entry
/// set: every barrier starts out counting itself.
pub open spec fn seeded_flags(num_nodes: int, self_id: int) -> Seq<bool> {
    Seq::new(num_nodes as nat, |i: int| i == self_id)
}

/// Which nodes of `[0, num_nodes)` have reported for one barrier lane.
pub struct PeerSet {
    seen: Vec<bool>,
}

impl View for PeerSet {
    type V = Seq<bool>;

    closed spec fn view(&self) -> Seq<bool> {
        self.seen@
    }
}

impl PeerSet {
    /// A fresh lane over `num_nodes` nodes, seeded with the node itself.
    pub fn new(num_nodes: usize, self_id: usize) -> (s: Self)
        requires
            self_id < num_nodes,
        ensures
            s@ == seeded_flags(num_nodes as int, self_id as int),
    {
        let mut seen: Vec<bool> = Vec::new();
        let mut i: usize = 0;
        while i < num_nodes
            invariant
                i <= num_nodes,
                seen@.len() == i as int,
                forall|j: int| 0 <= j < i ==> seen@[j] == (j == self_id as int),
            decreases num_nodes - i,
        {
            seen.push(i == self_id);
            i = i + 1;
        }
        proof {
            assert(seen@ =~= seeded_flags(num_nodes as int, self_id as int));
        }
        PeerSet { seen }
    }

    /// Records that the given node has reported. Reporting twice is
    /// harmless: the flag is simply set again.
    pub fn record(&mut self, id: NodeId)
        requires
            (id as int) < old(self)@.len(),
        ensures
            final(self)@ == old(self)@.update(id as int, true),
    {
        self.seen.set(id, true);
    }

    /// Whether the given node has reported.
    pub fn contains(&self, id: NodeId) -> (b: bool)
        requires
            (id as int) < self@.len(),
        ensures
            b == self@[id as int],
    {
        self.seen[id]
    }

    /// Whether every node has reported; the barrier opens exactly then.
    pub fn all_seen(&self) -> (b: bool)
        ensures
            b == all_true(self@),
    {
        let n = self.seen.len();
        let mut i: usize = 0;
        while i < n
            invariant
                i <= n,
                n as int == self@.len(),
                forall|j: int| 0 <= j < i ==> self@[j],
            decreases n - i,
        {
            if !self.seen[i] {
                return false;
            }
            i = i + 1;
        }
        true
    }

    /// Number of nodes the lane covers.
    pub fn len(&self) -> (n: usize)
        ensures
            n as int == self@.len(),
    {
        self.seen.len()
    }
}

/// The four worker lanes whose readiness the communication-layer handshake
/// collects, one report per peer per lane.
#[derive(Clone, Copy, Debug, PartialEq, Eq, Structural)]
pub enum CommLane {
    ControlSender,
    ControlReceiver,
    DataSender,
    DataReceiver,
}

/// Mathematical state of the communication-layer handshake: for each lane,
/// which nodes have reported readiness.
#[verifier::ext_equal]
pub ghost struct CommBarrierView {
    pub control_senders: Seq<bool>,
    pub control_receivers: Seq<bool>,
    pub data_senders: Seq<bool>,
    pub data_receivers: Seq<bool>,
}

/// The readiness message that the given lane's worker for node `p` emits.
pub open spec fn lane_init_message(lane: CommLane, p: NodeId) -> ControlMessage {
    match lane {
        CommLane::ControlSender => ControlMessage::ControlSenderInitialized(p),
        CommLane::ControlReceiver => ControlMessage::ControlReceiverInitialized(p),
        CommLane::DataSender => ControlMessage::DataSenderInitialized(p),
        CommLane::DataReceiver => ControlMessage::DataReceiverInitialized(p),
    }
}

impl CommBarrierView {
    /// All four lanes cover the same `num_nodes` nodes.
    pub open spec fn wf(self, num_nodes: int) -> bool {
        &&& self.control_senders.len() == num_nodes
        &&& self.control_receivers.len() == num_nodes
        &&& self.data_senders.len() == num_nodes
        &&& self.data_receivers.len() == num_nodes
    }

    /// The flags of one lane.
    pub open spec fn lane(self, lane: CommLane) -> Seq<bool> {
        match lane {
            CommLane::ControlSender => self.control_senders,
            CommLane::ControlReceiver => self.control_receivers,
            CommLane::DataSender => self.data_senders,
            CommLane::DataReceiver => self.data_receivers,
        }
    }

    /// Whether node `p` has reported on the given lane.
    pub open spec fn lane_seen(self, lane: CommLane, p: NodeId) -> bool {
        self.lane(lane)[p as int]
    }

    /// The handshake is over exactly when every node has reported on every
    /// lane.
    pub open spec fn complete(self) -> bool {
        &&& all_true(self.control_senders)
        &&& all_true(self.control_receivers)
        &&& all_true(self.data_senders)
        &&& all_true(self.data_receivers)
    }

    /// The handshake's transition: a readiness message naming a node of the
    /// run marks that node on its lane; every other message leaves the
    /// state untouched.
    pub open spec fn step(self, msg: ControlMessage) -> CommBarrierView {
        match msg {
            ControlMessage::ControlSenderInitialized(n) => if (n as int)
                < self.control_senders.len() {
                CommBarrierView {
                    control_senders: self.control_senders.update(n as int, true),
                    ..self
                }
            } else {
                self
            },
            ControlMessage::ControlReceiverInitialized(n) => if (n as int)
                < self.control_receivers.len() {
                CommBarrierView {
                    control_receivers: self.control_receivers.update(n as int, true),
                    ..self
                }
            } else {
                self
            },
            ControlMessage::DataSenderInitialized(n) => if (n as int)
                < self.data_senders.len() {
                CommBarrierView {
                    data_senders: self.data_senders.update(n as int, true),
                    ..self
                }
            } else {
                self
            },
            ControlMessage::DataReceiverInitialized(n) => if (n as int)
                < self.data_receivers.len() {
                CommBarrierView {
                    data_receivers: self.data_receivers.update(n as int, true),
                    ..self
                }
            } else {
                self
            },
            _ => self,
        }
    }
}

/// A lane's readiness message marks exactly its node on exactly its lane.
pub proof fn lemma_comm_step_records(v: CommBarrierView, lane: CommLane, p: NodeId)
    requires
        (p as int) < v.lane(lane).len(),
    ensures
        v.step(lane_init_message(lane, p)).lane_seen(lane, p),
{
}

/// Once a node has reported on a lane, no later message unreports it.
pub proof fn lemma_comm_step_monotone(
    v: CommBarrierView,
    msg: ControlMessage,
    lane: CommLane,
    p: NodeId,
)
    requires
        v.lane_seen(lane, p),
        (p as int) < v.lane(lane).len(),
    ensures
        v.step(msg).lane_seen(lane, p),
{
}

/// Only the matching readiness message can mark node `p` on a lane: while
/// that report is withheld, the flag stays clear whatever else arrives.
pub proof fn lemma_comm_step_frame(
    v: CommBarrierView,
    msg: ControlMessage,
    lane: CommLane,
    p: NodeId,
)
    requires
        msg != lane_init_message(lane, p),
        (p as int) < v.lane(lane).len(),
    ensures
        v.step(msg).lane_seen(lane, p) == v.lane_seen(lane, p),
{
}

/// Delivering the same readiness message twice changes nothing beyond the
/// first delivery: the handshake absorbs duplicates.
pub proof fn lemma_comm_step_idempotent(v: CommBarrierView, msg: ControlMessage)
    ensures
        v.step(msg).step(msg) == v.step(msg),
{
    assert(v.step(msg).step(msg) =~~= v.step(msg));
}

/// The handshake cannot end while any node's report on any lane is
/// missing: a peer that withholds one of its four readiness messages
/// blocks the phase.
pub proof fn lemma_comm_incomplete_without_report(
    v: CommBarrierView,
    lane: CommLane,
    p: NodeId,
)
    requires
        (p as int) < v.lane(lane).len(),
        !v.lane_seen(lane, p),
    ensures
        !v.complete(),
{
}

/// A duplicate report into a flag lane changes nothing beyond the first:
/// the global barrier, like the handshake, absorbs a node's readiness
/// report however often it is delivered.
pub proof fn lemma_report_idempotent(flags: Seq<bool>, p: int)
    requires
        0 <= p < flags.len(),
    ensures
        flags.update(p, true).update(p, true) == flags.update(p, true),
{
    assert(flags.update(p, true).update(p, true) =~= flags.update(p, true));
}

/// Mathematical state of the local-operator barrier: how many setup
/// reports are expected, and the distinct operator ids reported so far.
#[verifier::ext_equal]
pub ghost struct OperatorBarrierView {
    pub expected: int,
    pub observed: Seq<OperatorId>,
}

impl OperatorBarrierView {
    /// No operator is recorded twice.
    pub open spec fn wf(self) -> bool {
        self.observed.no_duplicates()
    }

    /// Whether the given operator's setup report has been seen.
    pub open spec fn has_observed(self, op: OperatorId) -> bool {
        self.observed.contains(op)
    }

    /// The barrier opens once as many distinct operators have reported as
    /// are expected.
    pub open spec fn complete(self) -> bool {
        self.observed.len() >= self.expected
    }

    /// The barrier's transition: a setup report records its operator once;
    /// duplicates and every other message variant are ignored.
    pub open spec fn step(self, msg: ControlMessage) -> OperatorBarrierView {
        match msg {
            ControlMessage::OperatorInitialized(op) => if self.observed.contains(op) {
                self
            } else {
                OperatorBarrierView { observed: self.observed.push(op), ..self }
            },
            _ => self,
        }
    }
}

/// Collects the setup reports of this node's operators; the node may not
/// broadcast its own readiness until this barrier opens.
pub struct OperatorBarrier {
    expected: usize,
    observed: Vec<OperatorId>,
}

impl View for OperatorBarrier {
    type V = OperatorBarrierView;

    closed spec fn view(&self) -> OperatorBarrierView {
        OperatorBarrierView { expected: self.expected as int, observed: self.observed@ }
    }
}

impl OperatorBarrier {
    /// A fresh barrier expecting one report per local operator.
    pub fn new(num_local_operators: usize) -> (b: Self)
        ensures
            b@.wf(),
            b@.expected == num_local_operators as int,
            b@.observed == Seq::<OperatorId>::empty(),
    {
        OperatorBarrier { expected: num_local_operators, observed: Vec::new() }
    }

    /// Whether the given operator's setup report has been seen.
    pub fn has_observed(&self, op: OperatorId) -> (b: bool)
        ensures
            b == self@.has_observed(op),
    {
        let n = self.observed.len();
        let mut i: usize = 0;
        while i < n
            invariant
                i <= n,
                n as int == self@.observed.len(),
                forall|j: int| 0 <= j < i ==> self@.observed[j] != op,
            decreases n - i,
        {
            if self.observed[i] == op {
                return true;
            }
            i = i + 1;
        }
        false
    }

    /// Feeds one message from the operators' channel into the barrier.
    pub fn handle_message(&mut self, msg: &ControlMessage)
        requires
            old(self)@.wf(),
        ensures
            final(self)@.wf(),
            final(self)@ == old(self)@.step(*msg),
    {
        match msg {
            ControlMessage::OperatorInitialized(op) => {
                if !self.has_observed(*op) {
                    let ghost pre = self.observed@;
                    self.observed.push(*op);
                    proof {
                        assert forall|i: int, j: int|
                            0 <= i < j < self.observed@.len() implies self.observed@[i]
                            != self.observed@[j] by {
                            if j < pre.len() {
                                assert(pre[i] != pre[j]);
                            } else {
                                assert(self.observed@[j] == *op);
                                assert(!pre.contains(self.observed@[i]) ==> false);
                            }
                        }
                    }
                }
            },
            _ => {},
        }
    }

    /// Whether the expected number of distinct reports has arrived.
    pub fn is_complete(&self) -> (b: bool)
        ensures
            b == self@.complete(),
    {
        self.observed.len() >= self.expected
    }
}

/// A setup report for one operator leaves every other operator's record
/// untouched: while an operator withholds its report, it stays unobserved.
pub proof fn lemma_operator_step_frame(
    v: OperatorBarrierView,
    msg: ControlMessage,
    op: OperatorId,
)
    requires
        !v.has_observed(op),
        msg != ControlMessage::OperatorInitialized(op),
    ensures
        !v.step(msg).has_observed(op),
{
    match msg {
        ControlMessage::OperatorInitialized(other) => {
            if !v.observed.contains(other) {
                assert forall|i: int| 0 <= i < v.step(msg).observed.len()
                    implies v.step(msg).observed[i] != op by {
                    if i < v.observed.len() {
                        assert(!v.observed.contains(op));
                    }
                }
            }
        },
        _ => {},
    }
}

/// A setup report never erases an earlier one.
pub proof fn lemma_operator_step_monotone(
    v: OperatorBarrierView,
    msg: ControlMessage,
    op: OperatorId,
)
    requires
        v.has_observed(op),
    ensures
        v.step(msg).has_observed(op),
{
    let i = choose|i: int| 0 <= i < v.observed.len() && v.observed[i] == op;
    assert(v.step(msg).observed[i] == op);
}

/// A duplicate setup report changes nothing beyond the first: the barrier
/// absorbs duplicates.
pub proof fn lemma_operator_step_idempotent(v: OperatorBarrierView, msg: ControlMessage)
    ensures
        v.step(msg).step(msg) == v.step(msg),
{
    match msg {
        ControlMessage::OperatorInitialized(op) => {
            assert(v.step(msg).observed.contains(op)) by {
                if !v.observed.contains(op) {
                    assert(v.step(msg).observed.last() == op);
                } else {
                    lemma_operator_step_monotone(v, msg, op);
                }
            }
        },
        _ => {},
    }
}

/// While any expected operator withholds its setup report, the local
/// barrier stays shut — provided the reports that did arrive all name
/// expected operators.
pub proof fn lemma_operator_barrier_blocks(
    v: OperatorBarrierView,
    locals: Seq<OperatorId>,
    missing: OperatorId,
)
    requires
        v.wf(),
        locals.no_duplicates(),
        v.expected == locals.len(),
        forall|i: int| 0 <= i < v.observed.len() ==> locals.contains(#[trigger] v.observed[i]),
        locals.contains(missing),
        !v.has_observed(missing),
    ensures
        !v.complete(),
{
    v.observed.unique_seq_to_set();
    locals.unique_seq_to_set();
    seq_to_set_is_finite(v.observed);
    seq_to_set_is_finite(locals);
    let obs = v.observed.to_set();
    let loc = locals.to_set();
    assert(obs.subset_of(loc.remove(missing)));
    lemma_len_subset(obs, loc.remove(missing));
    assert(loc.remove(missing).len() == loc.len() - 1);
}

/// Once the local barrier opens, every expected operator has been
/// observed — provided the reports that arrived all name expected
/// operators.
pub proof fn lemma_operator_barrier_complete_observes_all(
    v: OperatorBarrierView,
    locals: Seq<OperatorId>,
)
    requires
        v.wf(),
        locals.no_duplicates(),
        v.expected == locals.len(),
        forall|i: int| 0 <= i < v.observed.len() ==> locals.contains(#[trigger] v.observed[i]),
        v.complete(),
    ensures
        forall|i: int| 0 <= i < locals.len() ==> v.has_observed(#[trigger] locals[i]),
{
    v.observed.unique_seq_to_set();
    locals.unique_seq_to_set();
    seq_to_set_is_finite(v.observed);
    seq_to_set_is_finite(locals);
    let obs = v.observed.to_set();
    let loc = locals.to_set();
    assert(obs.subset_of(loc));
    lemma_len_subset(obs, loc);
    lemma_subset_equality(obs, loc);
    assert forall|i: int| 0 <= i < locals.len() implies v.has_observed(#[trigger] locals[i]) by {
        assert(loc.contains(locals[i]));
        assert(obs.contains(locals[i]));
    }
}

} // verus!
