//! Stream routing: the scheduled graph, the endpoint registries, and the
//! channel manager.
//!
//! After the handshake, the node resolves every stream of the scheduled
//! graph from its own perspective: who produces it, who consumes it, and
//! whether each party is local or behind a peer. Operators never learn
//! where a peer lives; they ask the channel manager for a send or receive
//! endpoint and the manager routes the stream through an in-process queue,
//! through the data-sender worker of the producing peer, or both.

use vstd::prelude::*;
use crate::control::{NodeId, OperatorId, StreamId};

verus! {

/// One operator of the scheduled graph and the node it is assigned to.
#[derive(Clone, Copy, Debug, PartialEq, Eq, Structural)]
pub struct OperatorDecl {
    pub id: OperatorId,
    pub node_id: NodeId,
}

/// One stream of the scheduled graph: its producing operator port and the
/// operator ports that read it.
#[derive(Clone, Debug)]
pub struct StreamDecl {
    pub id: StreamId,
    pub source: OperatorId,
    pub destinations: Vec<OperatorId>,
}

/// The dataflow graph after the assignment pass: operators with node
/// assignments and the streams between them.
#[derive(Clone, Debug)]
pub struct ScheduledGraph {
    pub operators: Vec<OperatorDecl>,
    pub streams: Vec<StreamDecl>,
    pub num_nodes: usize,
}

impl ScheduledGraph {
    /// Whether an operator with the given id is declared.
    pub open spec fn declares_operator(self, op: OperatorId) -> bool {
        exists|i: int| 0 <= i < self.operators@.len() && (#[trigger] self.operators@[i]).id == op
    }

    /// The node a declared operator is assigned to.
    pub open spec fn operator_node(self, op: OperatorId) -> NodeId {
        (self.operators@[choose|i: int|
            0 <= i < self.operators@.len() && (#[trigger] self.operators@[i]).id == op]).node_id
    }

    /// Whether a stream with the given id is declared.
    pub open spec fn declares_stream(self, stream: StreamId) -> bool {
        exists|i: int| 0 <= i < self.streams@.len() && (#[trigger] self.streams@[i]).id == stream
    }

    /// The declaration of a declared stream.
    pub open spec fn stream_decl(self, stream: StreamId) -> StreamDecl {
        self.streams@[choose|i: int|
            0 <= i < self.streams@.len() && (#[trigger] self.streams@[i]).id == stream]
    }

    /// Whether some reader of the given stream declaration is assigned to
    /// the given node.
    pub open spec fn stream_has_reader_on(self, d: StreamDecl, node: NodeId) -> bool {
        exists|k: int|
            0 <= k < d.destinations@.len() && self.operator_node(#[trigger] d.destinations@[k])
                == node
    }

    /// The graph's invariant: every operator is assigned to a node of the
    /// run and declared once; every stream is declared once; every stream
    /// endpoint is a declared operator.
    pub open spec fn wf(self) -> bool {
        &&& forall|i: int|
            0 <= i < self.operators@.len() ==> (#[trigger] self.operators@[i]).node_id
                < self.num_nodes
        &&& forall|i: int, j: int|
            0 <= i < j < self.operators@.len() ==> (#[trigger] self.operators@[i]).id != (
            #[trigger] self.operators@[j]).id
        &&& forall|i: int, j: int|
            0 <= i < j < self.streams@.len() ==> (#[trigger] self.streams@[i]).id != (
            #[trigger] self.streams@[j]).id
        &&& forall|i: int|
            0 <= i < self.streams@.len() ==> self.declares_operator(
                (#[trigger] self.streams@[i]).source,
            )
        &&& forall|i: int, k: int|
            0 <= i < self.streams@.len() && 0 <= k < self.streams@[i].destinations@.len()
                ==> self.declares_operator(
                #[trigger] self.streams@[i].destinations@[k],
            )
    }

    /// Looks an operator up by id; `Some` exactly for declared operators.
    pub fn find_operator_node(&self, op: OperatorId) -> (r: Option<NodeId>)
        requires
            self.wf(),
        ensures
            match r {
                Some(node) => self.declares_operator(op) && node == self.operator_node(op),
                None => !self.declares_operator(op),
            },
    {
        let n = self.operators.len();
        let mut i: usize = 0;
        while i < n
            invariant
                self.wf(),
                i <= n,
                n as int == self.operators@.len(),
                forall|j: int| 0 <= j < i ==> (#[trigger] self.operators@[j]).id != op,
            decreases n - i,
        {
            if self.operators[i].id == op {
                proof {
                    let j = choose|j: int|
                        0 <= j < self.operators@.len() && (#[trigger] self.operators@[j]).id == op;
                    assert(self.operators@[j].id == self.operators@[i as int].id);
                }
                return Some(self.operators[i].node_id);
            }
            i = i + 1;
        }
        None
    }

    /// The ids of the operators assigned to the given node, in declaration
    /// order — the set a node spawns locally after the handshake.
    pub fn local_operator_ids(&self, node: NodeId) -> (r: Vec<OperatorId>)
        ensures
            r@ == self.operators@.filter(|o: OperatorDecl| o.node_id == node).map_values(
                |o: OperatorDecl| o.id,
            ),
    {
        let n = self.operators.len();
        let mut r: Vec<OperatorId> = Vec::new();
        let mut i: usize = 0;
        proof {
            reveal(Seq::filter);
            assert(self.operators@.take(0).filter(|o: OperatorDecl| o.node_id == node)
                =~= Seq::<OperatorDecl>::empty());
        }
        while i < n
            invariant
                i <= n,
                n as int == self.operators@.len(),
                r@ == self.operators@.take(i as int).filter(|o: OperatorDecl| o.node_id == node)
                    .map_values(|o: OperatorDecl| o.id),
            decreases n - i,
        {
            proof {
                reveal(Seq::filter);
                let s = self.operators@;
                let keep = |o: OperatorDecl| o.node_id == node;
                let name = |o: OperatorDecl| o.id;
                assert(s.take(i + 1).drop_last() =~= s.take(i as int));
                assert(s.take(i + 1).last() == s[i as int]);
                if keep(s[i as int]) {
                    assert(s.take(i + 1).filter(keep) == s.take(i as int).filter(keep).push(
                        s[i as int],
                    ));
                    assert(s.take(i + 1).filter(keep).map_values(name) =~= s.take(i as int).filter(
                        keep,
                    ).map_values(name).push(s[i as int].id));
                } else {
                    assert(s.take(i + 1).filter(keep) == s.take(i as int).filter(keep));
                }
            }
            if self.operators[i].node_id == node {
                r.push(self.operators[i].id);
            }
            i = i + 1;
        }
        proof {
            assert(self.operators@.take(n as int) =~= self.operators@);
        }
        r
    }
}

/// Where the frames of a stream this node reads come from: an in-process
/// queue when the producer is local, else the data-receiver worker of the
/// producing peer.
#[derive(Clone, Copy, Debug, PartialEq, Eq, Structural)]
pub enum RecvSource {
    Local,
    Remote(NodeId),
}

/// Where a stream this node produces is written to: the local in-process
/// queue when some reader is local, plus the data-sender worker of every
/// peer that hosts a reader.
#[derive(Clone, Debug)]
pub struct SendRoute {
    pub local: bool,
    pub remote_peers: Vec<NodeId>,
}

/// The operator-facing endpoint factory, built once per node after the
/// handshake; it resolves each stream of the scheduled graph from this
/// node's perspective.
pub struct ChannelManager {
    graph: ScheduledGraph,
    self_id: NodeId,
}

impl ChannelManager {
    /// The manager's invariant: a well-formed graph and an id inside the
    /// run.
    pub closed spec fn wf(self) -> bool {
        &&& self.graph.wf()
        &&& (self.self_id as int) < self.graph.num_nodes as int
    }

    /// The graph the manager resolves against.
    pub closed spec fn spec_graph(self) -> ScheduledGraph {
        self.graph
    }

    /// This node's id.
    pub closed spec fn spec_self_id(self) -> NodeId {
        self.self_id
    }

    /// Builds the manager; `Some` exactly when the graph is well-formed
    /// and the id names a node of the run.
    pub fn new(graph: ScheduledGraph, self_id: NodeId) -> (r: Option<ChannelManager>)
        requires
            graph.wf(),
        ensures
            match r {
                Some(cm) => {
                    &&& cm.wf()
                    &&& cm.spec_graph() == graph
                    &&& cm.spec_self_id() == self_id
                },
                None => (self_id as int) >= graph.num_nodes as int,
            },
    {
        if self_id < graph.num_nodes {
            Some(ChannelManager { graph, self_id })
        } else {
            None
        }
    }

    /// Whether the given stream declaration has a reader on the given
    /// node; executable twin of [`ScheduledGraph::stream_has_reader_on`].
    fn has_reader_on(&self, d: &StreamDecl, node: NodeId) -> (b: bool)
        requires
            self.wf(),
            forall|k: int|
                0 <= k < d.destinations@.len() ==> self.spec_graph().declares_operator(
                    #[trigger] d.destinations@[k],
                ),
        ensures
            b == self.spec_graph().stream_has_reader_on(*d, node),
    {
        let n = d.destinations.len();
        let mut k: usize = 0;
        while k < n
            invariant
                k <= n,
                n as int == d.destinations@.len(),
                self.wf(),
                forall|j: int|
                    0 <= j < d.destinations@.len() ==> self.spec_graph().declares_operator(
                        #[trigger] d.destinations@[j],
                    ),
                forall|j: int|
                    0 <= j < k ==> self.spec_graph().operator_node(#[trigger] d.destinations@[j])
                        != node,
            decreases n - k,
        {
            match self.graph.find_operator_node(d.destinations[k]) {
                Some(dest_node) => {
                    if dest_node == node {
                        return true;
                    }
                },
                None => {},
            }
            k = k + 1;
        }
        false
    }

    /// Looks a stream up by id; `Some` exactly for declared streams.
    fn find_stream(&self, stream: StreamId) -> (r: Option<&StreamDecl>)
        requires
            self.wf(),
        ensures
            match r {
                Some(d) => self.spec_graph().declares_stream(stream) && *d
                    == self.spec_graph().stream_decl(stream),
                None => !self.spec_graph().declares_stream(stream),
            },
    {
        let n = self.graph.streams.len();
        let mut i: usize = 0;
        while i < n
            invariant
                self.wf(),
                i <= n,
                n as int == self.graph.streams@.len(),
                forall|j: int| 0 <= j < i ==> (#[trigger] self.graph.streams@[j]).id != stream,
            decreases n - i,
        {
            if self.graph.streams[i].id == stream {
                proof {
                    let j = choose|j: int|
                        0 <= j < self.graph.streams@.len() && (#[trigger] self.graph.streams@[j]).id
                            == stream;
                    assert(self.graph.streams@[j].id == self.graph.streams@[i as int].id);
                }
                return Some(&self.graph.streams[i]);
            }
            i = i + 1;
        }
        None
    }

    /// Hands out the write side of a stream. Never fails for a stream
    /// produced by an operator of this node; fails exactly when the stream
    /// is undeclared or produced elsewhere. The route names the local
    /// queue when some reader is local, and each peer hosting a reader, in
    /// increasing order without duplicates.
    pub fn get_send_endpoint(&self, stream: StreamId) -> (r: Option<SendRoute>)
        requires
            self.wf(),
        ensures
            match r {
                Some(route) => {
                    &&& self.spec_graph().declares_stream(stream)
                    &&& self.spec_graph().operator_node(
                        self.spec_graph().stream_decl(stream).source,
                    ) == self.spec_self_id()
                    &&& route.local == self.spec_graph().stream_has_reader_on(
                        self.spec_graph().stream_decl(stream),
                        self.spec_self_id(),
                    )
                    &&& forall|a: int, b: int|
                        0 <= a < b < route.remote_peers@.len() ==> route.remote_peers@[a]
                            < route.remote_peers@[b]
                    &&& forall|a: int|
                        0 <= a < route.remote_peers@.len() ==> (#[trigger] route.remote_peers@[a])
                            != self.spec_self_id() && self.spec_graph().stream_has_reader_on(
                            self.spec_graph().stream_decl(stream),
                            route.remote_peers@[a],
                        )
                    &&& forall|p: NodeId|
                        (p as int) < self.spec_graph().num_nodes as int && p
                            != self.spec_self_id() && self.spec_graph().stream_has_reader_on(
                            self.spec_graph().stream_decl(stream),
                            p,
                        ) ==> route.remote_peers@.contains(p)
                },
                None => !self.spec_graph().declares_stream(stream) || self.spec_graph()
                    .operator_node(self.spec_graph().stream_decl(stream).source)
                    != self.spec_self_id(),
            },
    {
        let d = match self.find_stream(stream) {
            Some(d) => d,
            None => {
                return None;
            },
        };
        let source_node = match self.graph.find_operator_node(d.source) {
            Some(n) => n,
            None => {
                return None;
            },
        };
        if source_node != self.self_id {
            return None;
        }
        let local = self.has_reader_on(d, self.self_id);
        let mut remote_peers: Vec<NodeId> = Vec::new();
        let mut p: usize = 0;
        let num_nodes = self.graph.num_nodes;
        while p < num_nodes
            invariant
                p <= num_nodes,
                self.wf(),
                *d == self.spec_graph().stream_decl(stream),
                forall|k: int|
                    0 <= k < d.destinations@.len() ==> self.spec_graph().declares_operator(
                        #[trigger] d.destinations@[k],
                    ),
                forall|a: int, b: int|
                    0 <= a < b < remote_peers@.len() ==> remote_peers@[a] < remote_peers@[b],
                forall|a: int|
                    0 <= a < remote_peers@.len() ==> (#[trigger] remote_peers@[a]) < p && (
                    remote_peers@[a]) != self.spec_self_id() && self.spec_graph()
                        .stream_has_reader_on(*d, remote_peers@[a]),
                forall|q: NodeId|
                    (q as int) < p as int && q != self.spec_self_id() && self.spec_graph()
                        .stream_has_reader_on(*d, q) ==> remote_peers@.contains(q),
            decreases num_nodes - p,
        {
            if p != self.self_id {
                if self.has_reader_on(d, p) {
                    let ghost pre = remote_peers@;
                    remote_peers.push(p);
                    proof {
                        assert forall|q: NodeId|
                            (q as int) < p + 1 && q != self.spec_self_id() && self.spec_graph()
                                .stream_has_reader_on(*d, q) implies remote_peers@.contains(
                            q,
                        ) by {
                            if (q as int) < p as int {
                                assert(pre.contains(q));
                                let w = choose|w: int| 0 <= w < pre.len() && pre[w] == q;
                                assert(remote_peers@[w] == q);
                            } else {
                                assert(remote_peers@.last() == q);
                            }
                        }
                    }
                }
            }
            p = p + 1;
        }
        Some(SendRoute { local, remote_peers })
    }

    /// Hands out the read side of a stream. Never fails for a stream read
    /// by an operator of this node; fails exactly when the stream is
    /// undeclared or has no local reader. The source tells the caller
    /// whether frames arrive from the local queue or from the named peer.
    pub fn get_recv_endpoint(&self, stream: StreamId) -> (r: Option<RecvSource>)
        requires
            self.wf(),
        ensures
            match r {
                Some(src) => {
                    &&& self.spec_graph().declares_stream(stream)
                    &&& self.spec_graph().stream_has_reader_on(
                        self.spec_graph().stream_decl(stream),
                        self.spec_self_id(),
                    )
                    &&& src == if self.spec_graph().operator_node(
                        self.spec_graph().stream_decl(stream).source,
                    ) == self.spec_self_id() {
                        RecvSource::Local
                    } else {
                        RecvSource::Remote(
                            self.spec_graph().operator_node(
                                self.spec_graph().stream_decl(stream).source,
                            ),
                        )
                    }
                },
                None => !self.spec_graph().declares_stream(stream) || !self.spec_graph()
                    .stream_has_reader_on(
                    self.spec_graph().stream_decl(stream),
                    self.spec_self_id(),
                ),
            },
    {
        let d = match self.find_stream(stream) {
            Some(d) => d,
            None => {
                return None;
            },
        };
        if !self.has_reader_on(d, self.self_id) {
            return None;
        }
        match self.graph.find_operator_node(d.source) {
            Some(source_node) => {
                if source_node == self.self_id {
                    Some(RecvSource::Local)
                } else {
                    Some(RecvSource::Remote(source_node))
                }
            },
            None => None,
        }
    }
}

} // verus!
