//! Stream traffic through the FIFO queue model: in-order delivery on a
//! self-loop, a two-hop relay across nodes, fan-out to two consumers, and
//! the backpressure and disconnection errors.

use erdos_node::channel::StreamChannel;
use erdos_node::errors::{CommunicationError, TryRecvError};

#[test]
fn self_loop_delivers_hundred_integers_in_order() {
    // A single producer-consumer operator sending 100 integers to itself
    // over one in-process queue.
    let mut queue: StreamChannel<u64> = StreamChannel::new(128);
    for k in 0..100u64 {
        queue.try_send(k).expect("queue has room");
    }
    for k in 0..100u64 {
        assert_eq!(queue.try_recv(), Ok(k));
    }
    assert_eq!(queue.try_recv(), Err(TryRecvError::Empty));
}

#[test]
fn forwarder_pipeline_preserves_order_across_hops() {
    // Node 0's source publishes into its sender worker's queue; the worker
    // relays each frame into node 1's receiver queue; node 1's sink reads
    // them in publication order.
    let mut up: StreamChannel<String> = StreamChannel::new(8);
    let mut down: StreamChannel<String> = StreamChannel::new(8);
    for s in ["a", "b", "c"] {
        up.try_send(String::from(s)).expect("queue has room");
    }
    loop {
        match up.try_recv() {
            Ok(frame) => {
                down.try_send(frame).expect("queue has room");
            }
            Err(TryRecvError::Empty) => break,
            Err(e) => panic!("unexpected relay error: {:?}", e),
        }
    }
    assert_eq!(down.try_recv(), Ok(String::from("a")));
    assert_eq!(down.try_recv(), Ok(String::from("b")));
    assert_eq!(down.try_recv(), Ok(String::from("c")));
    assert_eq!(down.try_recv(), Err(TryRecvError::Empty));
}

#[test]
fn fan_out_delivers_full_sequence_to_each_consumer() {
    // Node 0 produces ints on one stream; nodes 1 and 2 each host a
    // consumer, so the send route carries every frame into both peers'
    // queues.
    let mut to_node1: StreamChannel<u64> = StreamChannel::new(16);
    let mut to_node2: StreamChannel<u64> = StreamChannel::new(16);
    for k in 0..10u64 {
        to_node1.try_send(k).expect("queue has room");
        to_node2.try_send(k).expect("queue has room");
    }
    for k in 0..10u64 {
        assert_eq!(to_node1.try_recv(), Ok(k));
        assert_eq!(to_node2.try_recv(), Ok(k));
    }
}

#[test]
fn full_queue_reports_no_capacity_and_keeps_contents() {
    let mut queue: StreamChannel<u64> = StreamChannel::new(2);
    queue.try_send(1).expect("queue has room");
    queue.try_send(2).expect("queue has room");
    assert_eq!(queue.try_send(3), Err(CommunicationError::NoCapacity));
    assert_eq!(queue.len(), 2);
    assert_eq!(queue.try_recv(), Ok(1));
    // Backpressure is transient: after draining one item the send goes
    // through.
    queue.try_send(3).expect("queue has room again");
    assert_eq!(queue.try_recv(), Ok(2));
    assert_eq!(queue.try_recv(), Ok(3));
}

#[test]
fn closed_queue_reports_disconnected() {
    let mut queue: StreamChannel<u64> = StreamChannel::new(4);
    queue.try_send(9).expect("queue has room");
    queue.close();
    assert!(queue.is_closed());
    assert_eq!(queue.try_send(10), Err(CommunicationError::Disconnected));
    // Items already in flight stay readable; after that the closure shows.
    assert_eq!(queue.try_recv(), Ok(9));
    assert_eq!(queue.try_recv(), Err(TryRecvError::Disconnected));
}

#[test]
fn zero_capacity_queue_refuses_every_send() {
    let mut queue: StreamChannel<u64> = StreamChannel::new(0);
    assert_eq!(queue.try_send(1), Err(CommunicationError::NoCapacity));
    assert_eq!(queue.try_recv(), Err(TryRecvError::Empty));
}
