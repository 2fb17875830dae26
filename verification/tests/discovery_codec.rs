//! Peer enumeration and the discovery payload codec.

use erdos_node::discovery::{format_node_id, get_nodes_ids, parse_node_id};
use erdos_node::errors::CommunicationError;

#[test]
fn nodes_ids_skip_the_node_itself() {
    assert_eq!(get_nodes_ids(4, 0), vec![1, 2, 3]);
    assert_eq!(get_nodes_ids(4, 2), vec![0, 1, 3]);
    assert_eq!(get_nodes_ids(4, 3), vec![0, 1, 2]);
    assert_eq!(get_nodes_ids(1, 0), Vec::<usize>::new());
    assert_eq!(get_nodes_ids(0, 0), Vec::<usize>::new());
}

#[test]
fn format_produces_ascii_decimal() {
    assert_eq!(format_node_id(0), b"0".to_vec());
    assert_eq!(format_node_id(7), b"7".to_vec());
    assert_eq!(format_node_id(10), b"10".to_vec());
    assert_eq!(format_node_id(1409), b"1409".to_vec());
}

#[test]
fn parse_reads_back_what_format_wrote() {
    for id in [0usize, 1, 9, 10, 11, 99, 100, 12345, usize::MAX] {
        assert_eq!(parse_node_id(&format_node_id(id)), Ok(id));
    }
}

#[test]
fn parse_accepts_plain_digit_payloads() {
    assert_eq!(parse_node_id(&b"0".to_vec()), Ok(0));
    assert_eq!(parse_node_id(&b"042".to_vec()), Ok(42));
    assert_eq!(parse_node_id(&b"18446744073709551615".to_vec()), Ok(usize::MAX));
}

#[test]
fn parse_rejects_malformed_payloads() {
    assert_eq!(
        parse_node_id(&Vec::new()),
        Err(CommunicationError::DeserializeNotImplemented)
    );
    assert_eq!(
        parse_node_id(&b"12a".to_vec()),
        Err(CommunicationError::DeserializeNotImplemented)
    );
    assert_eq!(
        parse_node_id(&b"-1".to_vec()),
        Err(CommunicationError::DeserializeNotImplemented)
    );
    assert_eq!(
        parse_node_id(&b" 5".to_vec()),
        Err(CommunicationError::DeserializeNotImplemented)
    );
}

#[test]
fn parse_rejects_values_beyond_the_id_type() {
    // One more than usize::MAX on a 64-bit id, and something far larger.
    assert_eq!(
        parse_node_id(&b"18446744073709551616".to_vec()),
        Err(CommunicationError::DeserializeNotImplemented)
    );
    assert_eq!(
        parse_node_id(&b"9999999999999999999999999".to_vec()),
        Err(CommunicationError::DeserializeNotImplemented)
    );
}
