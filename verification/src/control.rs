//! The control-message alphabet exchanged on the control lane.
//!
//! Every barrier phase of the startup protocol consumes a subset of these
//! variants; receiving a variant outside that subset during a barrier phase
//! is a protocol violation and aborts startup.

use vstd::prelude::*;

verus! {

/// Unique index of a node, dense in `[0, num_nodes)`.
pub type NodeId = usize;

/// Unique identifier of an operator within the dataflow graph.
pub type OperatorId = usize;

/// Unique identifier of a stream within the dataflow graph.
pub type StreamId = usize;

/// A typed control event carried on the control lane between nodes, or
/// between the orchestrator and its local operators.
#[derive(Clone, Copy, Debug, PartialEq, Eq, Structural)]
pub enum ControlMessage {
    /// The control-sender worker serving the named node is ready.
    ControlSenderInitialized(NodeId),
    /// The control-receiver worker serving the named node is ready.
    ControlReceiverInitialized(NodeId),
    /// The data-sender worker serving the named node is ready.
    DataSenderInitialized(NodeId),
    /// The data-receiver worker serving the named node is ready.
    DataReceiverInitialized(NodeId),
    /// The named node has brought all of its local operators through setup.
    AllOperatorsInitializedOnNode(NodeId),
    /// The named local operator has finished its setup.
    OperatorInitialized(OperatorId),
    /// Orders the named operator to begin steady-state execution.
    RunOperator(OperatorId),
}

impl ControlMessage {
    /// Whether this is one of the four worker-readiness messages that the
    /// communication-layer handshake consumes.
    pub open spec fn is_comm_layer_init(self) -> bool {
        match self {
            ControlMessage::ControlSenderInitialized(_) => true,
            ControlMessage::ControlReceiverInitialized(_) => true,
            ControlMessage::DataSenderInitialized(_) => true,
            ControlMessage::DataReceiverInitialized(_) => true,
            _ => false,
        }
    }

    /// The node or operator id carried by the message.
    pub open spec fn spec_carried_id(self) -> usize {
        match self {
            ControlMessage::ControlSenderInitialized(n) => n,
            ControlMessage::ControlReceiverInitialized(n) => n,
            ControlMessage::DataSenderInitialized(n) => n,
            ControlMessage::DataReceiverInitialized(n) => n,
            ControlMessage::AllOperatorsInitializedOnNode(n) => n,
            ControlMessage::OperatorInitialized(op) => op,
            ControlMessage::RunOperator(op) => op,
        }
    }

    /// Executable twin of [`Self::is_comm_layer_init`].
    pub fn is_initialization_message(&self) -> (b: bool)
        ensures
            b == self.is_comm_layer_init(),
    {
        match self {
            ControlMessage::ControlSenderInitialized(_) => true,
            ControlMessage::ControlReceiverInitialized(_) => true,
            ControlMessage::DataSenderInitialized(_) => true,
            ControlMessage::DataReceiverInitialized(_) => true,
            _ => false,
        }
    }

    /// Executable twin of [`Self::spec_carried_id`].
    pub fn carried_id(&self) -> (id: usize)
        ensures
            id == self.spec_carried_id(),
    {
        match self {
            ControlMessage::ControlSenderInitialized(n) => *n,
            ControlMessage::ControlReceiverInitialized(n) => *n,
            ControlMessage::DataSenderInitialized(n) => *n,
            ControlMessage::DataReceiverInitialized(n) => *n,
            ControlMessage::AllOperatorsInitializedOnNode(n) => *n,
            ControlMessage::OperatorInitialized(op) => *op,
            ControlMessage::RunOperator(op) => *op,
        }
    }
}

} // verus!
