//! Immutable startup parameters of one node.

use vstd::prelude::*;
use crate::control::NodeId;

verus! {

/// Startup parameters shared by every node of the run; each node reads its
/// own index to learn which address to bind and which peers to dial.
pub struct Configuration {
    /// This node's index, dense in `[0, num_nodes)`.
    pub index: NodeId,
    /// One control-lane address per node.
    pub control_addresses: Vec<String>,
    /// One data-lane address per node, parallel to `control_addresses`.
    pub data_addresses: Vec<String>,
    /// Size of the worker-thread pool that runs the node's tasks.
    pub num_worker_threads: usize,
    /// If present, the scheduled graph is dumped to this file at startup.
    pub graph_filename: Option<String>,
}

impl Configuration {
    /// The address lists are parallel and non-empty, the node's own index
    /// points into them, and the pool has at least one thread.
    pub open spec fn wf(self) -> bool {
        &&& self.control_addresses@.len() == self.data_addresses@.len()
        &&& self.data_addresses@.len() >= 1
        &&& (self.index as int) < self.data_addresses@.len()
        &&& self.num_worker_threads >= 1
    }

    /// Number of nodes in the run.
    pub open spec fn spec_num_nodes(self) -> int {
        self.data_addresses@.len() as int
    }

    /// Validates the parameters; `Some` exactly when they are consistent.
    pub fn new(
        index: NodeId,
        control_addresses: Vec<String>,
        data_addresses: Vec<String>,
        num_worker_threads: usize,
        graph_filename: Option<String>,
    ) -> (r: Option<Configuration>)
        ensures
            match r {
                Some(c) => {
                    &&& c.wf()
                    &&& c.index == index
                    &&& c.control_addresses == control_addresses
                    &&& c.data_addresses == data_addresses
                    &&& c.num_worker_threads == num_worker_threads
                    &&& c.graph_filename == graph_filename
                },
                None => {
                    ||| control_addresses@.len() != data_addresses@.len()
                    ||| data_addresses@.len() == 0
                    ||| index as int >= data_addresses@.len()
                    ||| num_worker_threads == 0
                },
            },
    {
        if control_addresses.len() != data_addresses.len()
            || data_addresses.len() == 0
            || index >= data_addresses.len()
            || num_worker_threads == 0
        {
            None
        } else {
            Some(Configuration {
                index,
                control_addresses,
                data_addresses,
                num_worker_threads,
                graph_filename,
            })
        }
    }

    /// Executable twin of [`Self::spec_num_nodes`].
    pub fn num_nodes(&self) -> (n: usize)
        ensures
            n as int == self.spec_num_nodes(),
    {
        self.data_addresses.len()
    }
}

} // verus!
