//! Startup-protocol scenarios driven through the node's lifecycle state
//! machine: single-node runs, multi-node barriers, delayed reports,
//! withheld reports and protocol violations.

use erdos_node::barrier::PeerSet;
use erdos_node::config::Configuration;
use erdos_node::control::ControlMessage;
use erdos_node::errors::CommunicationError;
use erdos_node::node::{Node, NodePhase};

fn test_configuration(index: usize, num_nodes: usize) -> Configuration {
    let mut control = Vec::new();
    let mut data = Vec::new();
    for n in 0..num_nodes {
        control.push(format!("127.0.0.1:{}", 9000 + 2 * n));
        data.push(format!("127.0.0.1:{}", 9001 + 2 * n));
    }
    Configuration::new(index, control, data, 2, None).expect("configuration must validate")
}

/// Feeds a node the four worker-readiness reports of one peer.
fn report_peer_ready(node: &mut Node, peer: usize) {
    node.handle_comm_init_message(&ControlMessage::ControlSenderInitialized(peer))
        .expect("readiness report accepted");
    node.handle_comm_init_message(&ControlMessage::ControlReceiverInitialized(peer))
        .expect("readiness report accepted");
    node.handle_comm_init_message(&ControlMessage::DataSenderInitialized(peer))
        .expect("readiness report accepted");
    node.handle_comm_init_message(&ControlMessage::DataReceiverInitialized(peer))
        .expect("readiness report accepted");
}

#[test]
fn configuration_rejects_inconsistent_parameters() {
    let addrs = vec![String::from("a"), String::from("b")];
    assert!(Configuration::new(2, addrs.clone(), addrs.clone(), 1, None).is_none());
    assert!(Configuration::new(0, addrs.clone(), vec![String::from("a")], 1, None).is_none());
    assert!(Configuration::new(0, Vec::new(), Vec::new(), 1, None).is_none());
    assert!(Configuration::new(0, addrs.clone(), addrs.clone(), 0, None).is_none());
    assert!(Configuration::new(1, addrs.clone(), addrs, 4, None).is_some());
}

#[test]
fn peer_set_counts_itself_and_opens_when_all_report() {
    let mut lane = PeerSet::new(3, 1);
    assert_eq!(lane.len(), 3);
    assert!(lane.contains(1));
    assert!(!lane.contains(0));
    assert!(!lane.all_seen());
    lane.record(0);
    lane.record(2);
    assert!(lane.all_seen());
    // A duplicate report changes nothing.
    lane.record(2);
    assert!(lane.all_seen());
}

#[test]
fn initialization_messages_are_classified() {
    assert!(ControlMessage::ControlSenderInitialized(0).is_initialization_message());
    assert!(ControlMessage::ControlReceiverInitialized(1).is_initialization_message());
    assert!(ControlMessage::DataSenderInitialized(2).is_initialization_message());
    assert!(ControlMessage::DataReceiverInitialized(3).is_initialization_message());
    assert!(!ControlMessage::AllOperatorsInitializedOnNode(0).is_initialization_message());
    assert!(!ControlMessage::OperatorInitialized(0).is_initialization_message());
    assert!(!ControlMessage::RunOperator(0).is_initialization_message());
    assert_eq!(ControlMessage::RunOperator(9).carried_id(), 9);
}

#[test]
fn single_node_completes_handshake_trivially() {
    let mut node = Node::new(test_configuration(0, 1));
    assert_eq!(node.current_phase(), NodePhase::CommHandshake);
    assert_eq!(node.node_id(), 0);
    assert_eq!(node.num_nodes(), 1);
    assert_eq!(node.configuration().num_nodes(), 1);
    assert!(node.communication_layer_initialized());
    node.begin_operator_setup(vec![7]).expect("distinct operator ids accepted");
    node.handle_operator_message(&ControlMessage::OperatorInitialized(7));
    assert!(node.local_operators_initialized());
    let msg = node.broadcast_local_operators_initialized();
    assert_eq!(msg, ControlMessage::AllOperatorsInitializedOnNode(0));
    assert!(node.all_nodes_initialized());
    assert!(!node.initialized());
    node.set_node_initialized();
    assert!(node.initialized());
    let cmds = node.run_operator_commands();
    assert_eq!(cmds, vec![ControlMessage::RunOperator(7)]);
    assert_eq!(node.current_phase(), NodePhase::Running);
}

#[test]
fn two_node_run_reaches_release_on_both() {
    let mut node0 = Node::new(test_configuration(0, 2));
    let mut node1 = Node::new(test_configuration(1, 2));

    assert!(!node0.communication_layer_initialized());
    report_peer_ready(&mut node0, 1);
    report_peer_ready(&mut node1, 0);
    assert!(node0.communication_layer_initialized());
    assert!(node1.communication_layer_initialized());

    node0.begin_operator_setup(vec![100]).expect("source operator on node 0");
    node1.begin_operator_setup(vec![200]).expect("sink operator on node 1");
    node0.handle_operator_message(&ControlMessage::OperatorInitialized(100));
    node1.handle_operator_message(&ControlMessage::OperatorInitialized(200));
    assert!(node0.local_operators_initialized());
    assert!(node1.local_operators_initialized());

    let ready0 = node0.broadcast_local_operators_initialized();
    let ready1 = node1.broadcast_local_operators_initialized();
    assert!(!node0.all_nodes_initialized());
    node0.handle_node_initialized_message(&ready1).expect("peer readiness accepted");
    node1.handle_node_initialized_message(&ready0).expect("peer readiness accepted");
    assert!(node0.all_nodes_initialized());
    assert!(node1.all_nodes_initialized());

    node0.set_node_initialized();
    node1.set_node_initialized();
    assert_eq!(node0.run_operator_commands(), vec![ControlMessage::RunOperator(100)]);
    assert_eq!(node1.run_operator_commands(), vec![ControlMessage::RunOperator(200)]);
}

#[test]
fn handshake_waits_for_delayed_data_sender_report() {
    // The peer's data-sender report is withheld until the end; the node
    // must not pass the handshake before it arrives, however much else it
    // hears.
    let mut node0 = Node::new(test_configuration(0, 2));
    node0
        .handle_comm_init_message(&ControlMessage::ControlSenderInitialized(1))
        .expect("readiness report accepted");
    node0
        .handle_comm_init_message(&ControlMessage::ControlReceiverInitialized(1))
        .expect("readiness report accepted");
    node0
        .handle_comm_init_message(&ControlMessage::DataReceiverInitialized(1))
        .expect("readiness report accepted");
    assert!(!node0.communication_layer_initialized());
    // Duplicates of what was already heard change nothing.
    node0
        .handle_comm_init_message(&ControlMessage::ControlSenderInitialized(1))
        .expect("duplicate report absorbed");
    assert!(!node0.communication_layer_initialized());
    // The delayed report arrives; only now does the barrier open.
    node0
        .handle_comm_init_message(&ControlMessage::DataSenderInitialized(1))
        .expect("readiness report accepted");
    assert!(node0.communication_layer_initialized());
}

#[test]
fn withheld_peer_report_blocks_handshake_forever() {
    // Three-node run; node 2 never reports its control receiver. All other
    // reports arrive, some twice, and the handshake stays shut.
    let mut node0 = Node::new(test_configuration(0, 3));
    report_peer_ready(&mut node0, 1);
    node0
        .handle_comm_init_message(&ControlMessage::ControlSenderInitialized(2))
        .expect("readiness report accepted");
    node0
        .handle_comm_init_message(&ControlMessage::DataSenderInitialized(2))
        .expect("readiness report accepted");
    node0
        .handle_comm_init_message(&ControlMessage::DataReceiverInitialized(2))
        .expect("readiness report accepted");
    report_peer_ready(&mut node0, 1);
    assert!(!node0.communication_layer_initialized());
    assert_eq!(node0.current_phase(), NodePhase::CommHandshake);
}

#[test]
fn withheld_operator_report_blocks_local_barrier() {
    let mut node = Node::new(test_configuration(0, 1));
    node.begin_operator_setup(vec![1, 2]).expect("distinct operator ids accepted");
    node.handle_operator_message(&ControlMessage::OperatorInitialized(1));
    // Operator 2 never reports; duplicates from operator 1 do not help,
    // and stray non-report messages are ignored.
    node.handle_operator_message(&ControlMessage::OperatorInitialized(1));
    node.handle_operator_message(&ControlMessage::RunOperator(1));
    assert!(!node.local_operators_initialized());
    node.handle_operator_message(&ControlMessage::OperatorInitialized(2));
    assert!(node.local_operators_initialized());
}

#[test]
fn protocol_violation_during_handshake_aborts_startup() {
    let mut node = Node::new(test_configuration(0, 2));
    let r = node.handle_comm_init_message(&ControlMessage::AllOperatorsInitializedOnNode(1));
    assert_eq!(r, Err(CommunicationError::ProtocolViolation));
    assert_eq!(node.current_phase(), NodePhase::Aborted);
}

#[test]
fn out_of_range_node_id_is_a_protocol_violation() {
    let mut node = Node::new(test_configuration(0, 2));
    let r = node.handle_comm_init_message(&ControlMessage::DataSenderInitialized(5));
    assert_eq!(r, Err(CommunicationError::ProtocolViolation));
    assert_eq!(node.current_phase(), NodePhase::Aborted);
}

#[test]
fn violation_at_global_barrier_aborts_startup() {
    let mut node = Node::new(test_configuration(0, 1));
    node.begin_operator_setup(Vec::new()).expect("no local operators");
    assert!(node.local_operators_initialized());
    node.broadcast_local_operators_initialized();
    let r = node.handle_node_initialized_message(&ControlMessage::OperatorInitialized(3));
    assert_eq!(r, Err(CommunicationError::ProtocolViolation));
    assert_eq!(node.current_phase(), NodePhase::Aborted);
}

#[test]
fn duplicate_operator_ids_abort_startup() {
    let mut node = Node::new(test_configuration(0, 1));
    let r = node.begin_operator_setup(vec![4, 5, 4]);
    assert_eq!(r, Err(CommunicationError::ProtocolViolation));
    assert_eq!(node.current_phase(), NodePhase::Aborted);
}
