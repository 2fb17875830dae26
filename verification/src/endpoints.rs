//! The process-local endpoint registries.
//!
//! Two routing tables stand between the workers and the channel manager:
//! `ChannelsToReceivers` maps each inbound stream to the local endpoint
//! that drains it into an operator, and `ChannelsToSenders` maps each
//! remote peer to the unique data-sender worker serving it. Endpoints are
//! held as indices into the runtime's endpoint table, so the registries
//! carry no references into the orchestrator. Both tables own their keys:
//! registering a key twice is a programmer error and is refused, which the
//! orchestrator treats as fatal at startup.

use vstd::prelude::*;
use crate::control::{NodeId, StreamId};

verus! {

/// Index of an endpoint in the runtime's endpoint table.
pub type EndpointId = usize;

/// Whether some entry of the table has the given key.
pub open spec fn has_key(entries: Seq<(usize, EndpointId)>, key: usize) -> bool {
    exists|i: int| 0 <= i < entries.len() && (#[trigger] entries[i]).0 == key
}

/// Every key appears at most once.
pub open spec fn keys_unique(entries: Seq<(usize, EndpointId)>) -> bool {
    forall|i: int, j: int|
        0 <= i < j < entries.len() ==> (#[trigger] entries[i]).0 != (#[trigger] entries[j]).0
}

/// Routing table from inbound stream id to the local endpoint that hands
/// its frames to operators; at most one owner per stream.
pub struct ChannelsToReceivers {
    entries: Vec<(StreamId, EndpointId)>,
}

impl View for ChannelsToReceivers {
    type V = Seq<(StreamId, EndpointId)>;

    closed spec fn view(&self) -> Seq<(StreamId, EndpointId)> {
        self.entries@
    }
}

impl ChannelsToReceivers {
    /// An empty table.
    pub fn new() -> (t: Self)
        ensures
            t@ == Seq::<(StreamId, EndpointId)>::empty(),
            keys_unique(t@),
    {
        ChannelsToReceivers { entries: Vec::new() }
    }

    /// Registers the receiving endpoint of a stream. Succeeds exactly when
    /// the stream is not yet owned; a second registration is refused and
    /// leaves the table unchanged.
    pub fn add_mapping(&mut self, stream: StreamId, endpoint: EndpointId) -> (added: bool)
        requires
            keys_unique(old(self)@),
        ensures
            keys_unique(final(self)@),
            added == !has_key(old(self)@, stream),
            final(self)@ == if added {
                old(self)@.push((stream, endpoint))
            } else {
                old(self)@
            },
    {
        let n = self.entries.len();
        let mut i: usize = 0;
        while i < n
            invariant
                *self == *old(self),
                keys_unique(self@),
                i <= n,
                n as int == self@.len(),
                forall|j: int| 0 <= j < i ==> (#[trigger] self@[j]).0 != stream,
            decreases n - i,
        {
            if self.entries[i].0 == stream {
                return false;
            }
            i = i + 1;
        }
        self.entries.push((stream, endpoint));
        true
    }

    /// Looks up the endpoint owning a stream; `Some` exactly for
    /// registered streams.
    pub fn lookup(&self, stream: StreamId) -> (r: Option<EndpointId>)
        requires
            keys_unique(self@),
        ensures
            match r {
                Some(e) => self@.contains((stream, e)),
                None => !has_key(self@, stream),
            },
    {
        let n = self.entries.len();
        let mut i: usize = 0;
        while i < n
            invariant
                i <= n,
                n as int == self@.len(),
                forall|j: int| 0 <= j < i ==> (#[trigger] self@[j]).0 != stream,
            decreases n - i,
        {
            if self.entries[i].0 == stream {
                let e = self.entries[i].1;
                proof {
                    assert(self@[i as int] == (stream, e));
                }
                return Some(e);
            }
            i = i + 1;
        }
        None
    }

    /// Number of registered streams.
    pub fn len(&self) -> (n: usize)
        ensures
            n as int == self@.len(),
    {
        self.entries.len()
    }
}

/// Routing table from remote peer to the data-sender worker serving it;
/// one entry per peer.
pub struct ChannelsToSenders {
    entries: Vec<(NodeId, EndpointId)>,
}

impl View for ChannelsToSenders {
    type V = Seq<(NodeId, EndpointId)>;

    closed spec fn view(&self) -> Seq<(NodeId, EndpointId)> {
        self.entries@
    }
}

impl ChannelsToSenders {
    /// An empty table.
    pub fn new() -> (t: Self)
        ensures
            t@ == Seq::<(NodeId, EndpointId)>::empty(),
            keys_unique(t@),
    {
        ChannelsToSenders { entries: Vec::new() }
    }

    /// Registers the sender worker of a peer. Succeeds exactly when the
    /// peer has no worker yet; a second registration is refused and leaves
    /// the table unchanged.
    pub fn add_mapping(&mut self, peer: NodeId, endpoint: EndpointId) -> (added: bool)
        requires
            keys_unique(old(self)@),
        ensures
            keys_unique(final(self)@),
            added == !has_key(old(self)@, peer),
            final(self)@ == if added {
                old(self)@.push((peer, endpoint))
            } else {
                old(self)@
            },
    {
        let n = self.entries.len();
        let mut i: usize = 0;
        while i < n
            invariant
                *self == *old(self),
                keys_unique(self@),
                i <= n,
                n as int == self@.len(),
                forall|j: int| 0 <= j < i ==> (#[trigger] self@[j]).0 != peer,
            decreases n - i,
        {
            if self.entries[i].0 == peer {
                return false;
            }
            i = i + 1;
        }
        self.entries.push((peer, endpoint));
        true
    }

    /// Looks up the sender worker of a peer; `Some` exactly for
    /// registered peers.
    pub fn lookup(&self, peer: NodeId) -> (r: Option<EndpointId>)
        requires
            keys_unique(self@),
        ensures
            match r {
                Some(e) => self@.contains((peer, e)),
                None => !has_key(self@, peer),
            },
    {
        let n = self.entries.len();
        let mut i: usize = 0;
        while i < n
            invariant
                i <= n,
                n as int == self@.len(),
                forall|j: int| 0 <= j < i ==> (#[trigger] self@[j]).0 != peer,
            decreases n - i,
        {
            if self.entries[i].0 == peer {
                let e = self.entries[i].1;
                proof {
                    assert(self@[i as int] == (peer, e));
                }
                return Some(e);
            }
            i = i + 1;
        }
        None
    }

    /// Number of peers with a registered worker.
    pub fn len(&self) -> (n: usize)
        ensures
            n as int == self@.len(),
    {
        self.entries.len()
    }
}

} // verus!
