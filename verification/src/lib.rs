//! Per-node runtime core of a distributed stream-processing framework.
//!
//! A computation is a directed graph of operators exchanging typed messages
//! over streams, partitioned across a fixed set of `N` cooperating nodes.
//! This crate holds the verified core of one node: the control-message
//! alphabet, the barrier state machines that bring all peers and local
//! operators through initialization in lockstep, the channel-manager
//! indirection that routes per-stream endpoints, the FIFO queue model that
//! carries stream traffic, and the supervised shutdown logic.
//!
//! Transport adapters, the task scheduler, and every other blocking or
//! networked concern live outside this crate; they feed plain events into
//! the state machines defined here and perform the actions those machines
//! decide on.

pub mod barrier;
pub mod channel;
pub mod config;
pub mod control;
pub mod discovery;
pub mod endpoints;
pub mod errors;
pub mod node;
pub mod routing;
pub mod shutdown;
pub mod supervisor;
pub mod worker;
