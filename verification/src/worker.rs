//! Decisions of the per-peer sender and receiver workers.
//!
//! Four groups of long-lived tasks shuttle framed messages between the
//! transports and the registries, one task per peer per lane. Two of their
//! duties are decisions rather than I/O and are verified here: announcing
//! readiness on startup — exactly once per worker, which is what makes the
//! handshake's per-peer-per-lane reports unique — and demultiplexing an
//! arriving data frame to the right local queue, with a staging area for
//! frames that arrive before the channel manager has been populated.

use vstd::prelude::*;
use crate::barrier::{lane_init_message, CommLane};
use crate::control::{ControlMessage, NodeId, StreamId};
use crate::endpoints::EndpointId;

verus! {

/// One long-lived transport worker: the lane it serves, the peer it talks
/// to, and whether it has announced its readiness yet.
pub struct TransportWorker {
    lane: CommLane,
    peer: NodeId,
    self_id: NodeId,
    announced: bool,
}

impl TransportWorker {
    /// The lane this worker serves.
    pub closed spec fn spec_lane(self) -> CommLane {
        self.lane
    }

    /// The peer this worker serves.
    pub closed spec fn spec_peer(self) -> NodeId {
        self.peer
    }

    /// The node this worker belongs to.
    pub closed spec fn spec_self_id(self) -> NodeId {
        self.self_id
    }

    /// Whether the worker has announced its readiness.
    pub closed spec fn has_announced(self) -> bool {
        self.announced
    }

    /// A fresh worker that has not announced yet.
    pub fn new(lane: CommLane, peer: NodeId, self_id: NodeId) -> (w: Self)
        ensures
            w.spec_lane() == lane,
            w.spec_peer() == peer,
            w.spec_self_id() == self_id,
            !w.has_announced(),
    {
        TransportWorker { lane, peer, self_id, announced: false }
    }

    /// Produces the readiness report the worker emits on startup. The
    /// precondition admits it only on a worker that has not announced, and
    /// afterwards the worker has: each worker's report is emitted exactly
    /// once, so each peer's handshake hears `Initialized(self)` on each
    /// lane exactly once per run.
    pub fn startup_announcement(&mut self) -> (msg: ControlMessage)
        requires
            !old(self).has_announced(),
        ensures
            final(self).has_announced(),
            final(self).spec_lane() == old(self).spec_lane(),
            final(self).spec_peer() == old(self).spec_peer(),
            final(self).spec_self_id() == old(self).spec_self_id(),
            msg == lane_init_message(old(self).spec_lane(), old(self).spec_self_id()),
    {
        self.announced = true;
        match self.lane {
            CommLane::ControlSender => ControlMessage::ControlSenderInitialized(self.self_id),
            CommLane::ControlReceiver => ControlMessage::ControlReceiverInitialized(self.self_id),
            CommLane::DataSender => ControlMessage::DataSenderInitialized(self.self_id),
            CommLane::DataReceiver => ControlMessage::DataReceiverInitialized(self.self_id),
        }
    }
}

/// A data frame on the wire: the stream it belongs to and its payload.
#[derive(Clone, Copy, Debug, PartialEq, Eq, Structural)]
pub struct Frame<T> {
    pub stream: StreamId,
    pub payload: T,
}

/// What a data receiver does with an arriving frame.
#[derive(Clone, Copy, Debug, PartialEq, Eq, Structural)]
pub enum FrameAction {
    /// The stream is registered: enqueue the frame at this endpoint.
    Deliver(EndpointId),
    /// The stream is unknown but the channel manager is still being
    /// populated: hold the frame and retry once the manager is ready.
    Stage,
    /// The stream is unknown although the manager is fully populated:
    /// fatal for the receiver.
    Fatal,
}

/// The demultiplexing rule, over the registry's answer for the frame's
/// stream and whether the channel manager is fully populated.
pub open spec fn spec_frame_action(lookup: Option<EndpointId>, manager_ready: bool) -> FrameAction {
    match lookup {
        Some(endpoint) => FrameAction::Deliver(endpoint),
        None => if manager_ready {
            FrameAction::Fatal
        } else {
            FrameAction::Stage
        },
    }
}

/// Executable twin of [`spec_frame_action`].
pub fn route_frame(lookup: Option<EndpointId>, manager_ready: bool) -> (a: FrameAction)
    ensures
        a == spec_frame_action(lookup, manager_ready),
{
    match lookup {
        Some(endpoint) => FrameAction::Deliver(endpoint),
        None => if manager_ready {
            FrameAction::Fatal
        } else {
            FrameAction::Stage
        },
    }
}

/// Frames held back because their stream was not registered yet; retried
/// in arrival order once the channel manager is ready.
pub struct StagingArea<T> {
    frames: Vec<Frame<T>>,
}

impl<T> View for StagingArea<T> {
    type V = Seq<Frame<T>>;

    closed spec fn view(&self) -> Seq<Frame<T>> {
        self.frames@
    }
}

impl<T> StagingArea<T> {
    /// An empty staging area.
    pub fn new() -> (s: Self)
        ensures
            s@ == Seq::<Frame<T>>::empty(),
    {
        StagingArea { frames: Vec::new() }
    }

    /// Holds a frame back for retry.
    pub fn stage(&mut self, frame: Frame<T>)
        ensures
            final(self)@ == old(self)@.push(frame),
    {
        self.frames.push(frame);
    }

    /// Hands every held frame back for retry, in arrival order, emptying
    /// the area.
    pub fn drain(&mut self) -> (frames: Vec<Frame<T>>)
        ensures
            frames@ == old(self)@,
            final(self)@ == Seq::<Frame<T>>::empty(),
    {
        let mut drained: Vec<Frame<T>> = Vec::new();
        std::mem::swap(&mut drained, &mut self.frames);
        drained
    }

    /// Number of frames held back.
    pub fn len(&self) -> (n: usize)
        ensures
            n as int == self@.len(),
    {
        self.frames.len()
    }
}

} // verus!
