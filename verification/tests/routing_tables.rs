//! Routing: the channel manager's stream resolution and the endpoint
//! registries' ownership rules.

use erdos_node::endpoints::{ChannelsToReceivers, ChannelsToSenders};
use erdos_node::routing::{
    ChannelManager, OperatorDecl, RecvSource, ScheduledGraph, StreamDecl,
};

fn forwarder_graph() -> ScheduledGraph {
    // Node 0 hosts `source` (id 100), node 1 hosts `sink` (id 200), one
    // stream 5 from source to sink.
    ScheduledGraph {
        operators: vec![
            OperatorDecl { id: 100, node_id: 0 },
            OperatorDecl { id: 200, node_id: 1 },
        ],
        streams: vec![StreamDecl { id: 5, source: 100, destinations: vec![200] }],
        num_nodes: 2,
    }
}

fn fan_out_graph() -> ScheduledGraph {
    // Node 0 produces stream 7; nodes 1 and 2 each host a consumer of it.
    ScheduledGraph {
        operators: vec![
            OperatorDecl { id: 1, node_id: 0 },
            OperatorDecl { id: 2, node_id: 1 },
            OperatorDecl { id: 3, node_id: 2 },
        ],
        streams: vec![StreamDecl { id: 7, source: 1, destinations: vec![2, 3] }],
        num_nodes: 3,
    }
}

#[test]
fn forwarder_routes_stream_to_the_peer() {
    let cm = ChannelManager::new(forwarder_graph(), 0).expect("node 0 is part of the run");
    let route = cm.get_send_endpoint(5).expect("source lives on node 0");
    assert!(!route.local);
    assert_eq!(route.remote_peers, vec![1]);
    // Node 0 hosts no reader of the stream.
    assert!(cm.get_recv_endpoint(5).is_none());
}

#[test]
fn forwarder_sink_reads_from_the_producing_peer() {
    let cm = ChannelManager::new(forwarder_graph(), 1).expect("node 1 is part of the run");
    // Node 1 does not produce the stream.
    assert!(cm.get_send_endpoint(5).is_none());
    let src = cm.get_recv_endpoint(5).expect("sink lives on node 1");
    assert_eq!(src, RecvSource::Remote(0));
}

#[test]
fn fan_out_names_every_consuming_peer_in_order() {
    let cm = ChannelManager::new(fan_out_graph(), 0).expect("node 0 is part of the run");
    let route = cm.get_send_endpoint(7).expect("producer lives on node 0");
    assert!(!route.local);
    assert_eq!(route.remote_peers, vec![1, 2]);
}

#[test]
fn self_loop_routes_through_the_local_queue() {
    let graph = ScheduledGraph {
        operators: vec![OperatorDecl { id: 4, node_id: 0 }],
        streams: vec![StreamDecl { id: 9, source: 4, destinations: vec![4] }],
        num_nodes: 1,
    };
    let cm = ChannelManager::new(graph, 0).expect("node 0 is part of the run");
    let route = cm.get_send_endpoint(9).expect("producer is local");
    assert!(route.local);
    assert_eq!(route.remote_peers, Vec::<usize>::new());
    assert_eq!(cm.get_recv_endpoint(9), Some(RecvSource::Local));
}

#[test]
fn undeclared_stream_has_no_endpoints() {
    let cm = ChannelManager::new(forwarder_graph(), 0).expect("node 0 is part of the run");
    assert!(cm.get_send_endpoint(42).is_none());
    assert!(cm.get_recv_endpoint(42).is_none());
}

#[test]
fn manager_refuses_an_id_outside_the_run() {
    assert!(ChannelManager::new(forwarder_graph(), 2).is_none());
}

#[test]
fn local_operator_ids_partition_by_node() {
    let graph = fan_out_graph();
    assert_eq!(graph.local_operator_ids(0), vec![1]);
    assert_eq!(graph.local_operator_ids(1), vec![2]);
    assert_eq!(graph.local_operator_ids(2), vec![3]);
    assert_eq!(graph.local_operator_ids(3), Vec::<usize>::new());
}

#[test]
fn receiver_registry_owns_each_stream_once() {
    let mut table = ChannelsToReceivers::new();
    assert!(table.add_mapping(5, 0));
    assert!(table.add_mapping(6, 1));
    // A duplicate registration is refused and changes nothing.
    assert!(!table.add_mapping(5, 9));
    assert_eq!(table.lookup(5), Some(0));
    assert_eq!(table.lookup(6), Some(1));
    assert_eq!(table.lookup(7), None);
    assert_eq!(table.len(), 2);
}

#[test]
fn sender_registry_owns_each_peer_once() {
    let mut table = ChannelsToSenders::new();
    assert!(table.add_mapping(1, 10));
    assert!(!table.add_mapping(1, 11));
    assert_eq!(table.lookup(1), Some(10));
    assert_eq!(table.lookup(0), None);
    assert_eq!(table.len(), 1);
}
