//! Shutdown idempotence, supervision verdicts, and the error mappings of
//! the communication layer.

use erdos_node::errors::{CodecError, CommunicationError};
use erdos_node::shutdown::ShutdownChannel;
use erdos_node::supervisor::{
    supervise, SupervisorEvent, SupervisorVerdict, WorkerGroup,
};

#[test]
fn shutdown_twice_is_a_no_op() {
    let mut channel = ShutdownChannel::new();
    assert!(!channel.is_pending());
    assert!(channel.signal());
    assert!(channel.is_pending());
    // The second request finds the slot taken and is silently dropped.
    assert!(!channel.signal());
    assert!(channel.is_pending());
    // The supervisor still consumes exactly one request.
    assert_eq!(channel.try_take(), Some(()));
    assert_eq!(channel.try_take(), None);
}

#[test]
fn graceful_shutdown_ends_the_run_without_error() {
    let v = supervise(2, &SupervisorEvent::ShutdownRequested);
    assert_eq!(v, SupervisorVerdict { exits: true, reports_error: false });
}

#[test]
fn peer_transport_failure_is_logged_and_ends_the_run() {
    // A peer's transport dies during steady state: the supervisor exits
    // and reports, but the verdict carries no error out of the run — the
    // caller's join sees a clean exit.
    let v = supervise(
        2,
        &SupervisorEvent::WorkerGroupFailed(
            WorkerGroup::DataReceivers,
            CommunicationError::Disconnected,
        ),
    );
    assert_eq!(v, SupervisorVerdict { exits: true, reports_error: true });
}

#[test]
fn single_node_worker_completion_is_non_fatal() {
    // With no peers the worker groups finish immediately; whatever they
    // report is noise and must not end the run.
    let v = supervise(
        1,
        &SupervisorEvent::WorkerGroupFailed(
            WorkerGroup::ControlSenders,
            CommunicationError::Disconnected,
        ),
    );
    assert_eq!(v, SupervisorVerdict { exits: false, reports_error: true });
}

#[test]
fn operator_completion_keeps_the_node_waiting() {
    let v = supervise(2, &SupervisorEvent::OperatorsFinished);
    assert_eq!(v, SupervisorVerdict { exits: false, reports_error: false });
}

#[test]
fn operator_failure_ends_the_run() {
    let v = supervise(2, &SupervisorEvent::OperatorsFailed(String::from("boom")));
    assert_eq!(v, SupervisorVerdict { exits: true, reports_error: true });
}

#[test]
fn degraded_discovery_ends_the_run() {
    let v = supervise(3, &SupervisorEvent::DiscoveryHandlerStopped);
    assert_eq!(v, SupervisorVerdict { exits: true, reports_error: false });
}

#[test]
fn codec_errors_keep_their_description() {
    assert_eq!(
        CommunicationError::from(CodecError::IoError(String::from("pipe broke"))),
        CommunicationError::IoError(String::from("pipe broke"))
    );
    assert_eq!(
        CommunicationError::from(CodecError::SerializationError(String::from("bad frame"))),
        CommunicationError::SerializationError(String::from("bad frame"))
    );
}
