use vstd::prelude::*;
use tokio::sync::mpsc::{Receiver, Sender};
use crate::telemetry::{encode_frame, frame_bytes, lemma_frame_round_trip, parse_frame, TelemetryData, QUEUE_CAPACITY};

verus! {

#[verifier::external_type_specification]
#[verifier::external_body]
#[verifier::reject_recursive_types(T)]
pub struct ExSender<T>(Sender<T>);

#[verifier::external_type_specification]
#[verifier::external_body]
#[verifier::reject_recursive_types(T)]
pub struct ExReceiver<T>(Receiver<T>);

/// Why a snapshot was dropped instead of queued.
#[derive(Clone, Copy, Debug, PartialEq, Eq, Structural)]
pub enum SendFailure {
    /// The queue held `QUEUE_CAPACITY` snapshots: the newest is shed.
    Full,
    /// The network writer has stopped.
    Closed,
}

/// The bound that the queue behind a sender was made with.
pub uninterp spec fn queue_capacity(tx: Sender<TelemetryData>) -> nat;

/// Relies on `tokio::sync::mpsc::channel`: a bounded queue holding at most
/// `capacity` items; it panics on a capacity of zero or above
/// `usize::MAX >> 3`, that is `usize::MAX / 8`.
#[verifier::external_body]
fn open_queue(capacity: usize) -> (r: (Sender<TelemetryData>, Receiver<TelemetryData>))
    requires
        0 < capacity <= usize::MAX / 8,
    ensures
        queue_capacity(r.0) == capacity,
{
    tokio::sync::mpsc::channel(capacity)
}

/// The producer side of the telemetry queue, held by the simulation, with
/// the log of the snapshots the queue has taken from it.
pub struct TelemetryChannel {
    tx: Sender<TelemetryData>,
    accepted: Ghost<Seq<TelemetryData>>,
}

impl TelemetryChannel {
    /// The snapshots the queue has taken from this channel, oldest first.
    pub closed spec fn accepted_log(self) -> Seq<TelemetryData> {
        self.accepted@
    }

    /// The bound of the queue behind this channel.
    pub closed spec fn capacity(self) -> nat {
        queue_capacity(self.tx)
    }

    /// Relies on tokio's `Sender::try_send`: it hands `snapshot` to the queue
    /// without waiting; the queue keeps it exactly when the call returns `Ok`,
    /// and on refusal (queue full, or receiver gone) says which.
    #[verifier::external_body]
    fn try_enqueue(&mut self, snapshot: TelemetryData) -> (r: Result<(), SendFailure>)
        ensures
            final(self).tx == old(self).tx,
            r is Ok ==> final(self).accepted@ == old(self).accepted@.push(snapshot),
            r is Err ==> final(self).accepted@ == old(self).accepted@,
    {
        match self.tx.try_send(snapshot) {
            Ok(()) => Ok(()),
            Err(tokio::sync::mpsc::error::TrySendError::Full(_)) => Err(SendFailure::Full),
            Err(tokio::sync::mpsc::error::TrySendError::Closed(_)) => Err(SendFailure::Closed),
        }
    }

    /// A queue of `QUEUE_CAPACITY` snapshots: the channel for the simulation,
    /// and the receiver for the network writer.
    pub fn new() -> (r: (TelemetryChannel, Receiver<TelemetryData>))
        ensures
            r.0.capacity() == QUEUE_CAPACITY,
            r.0.accepted_log() == Seq::<TelemetryData>::empty(),
    {
        let (tx, rx) = open_queue(QUEUE_CAPACITY);
        (TelemetryChannel { tx, accepted: Ghost(Seq::empty()) }, rx)
    }

    /// Queues a snapshot without waiting. When the queue takes it, it is
    /// appended to the log; a full queue or a stopped writer drops it, leaves
    /// the log as it was, and says which.
    pub fn send_telemetry_data(&mut self, data: TelemetryData) -> (r: Result<(), SendFailure>)
        ensures
            final(self).capacity() == old(self).capacity(),
            r is Ok ==> final(self).accepted_log() == old(self).accepted_log().push(data),
            r is Err ==> final(self).accepted_log() == old(self).accepted_log(),
    {
        self.try_enqueue(data)
    }
}

/// Where the network writer stands.
#[derive(Clone, Copy, Debug, PartialEq, Eq, Structural)]
pub enum StreamState {
    /// Waiting for the one client.
    AwaitingClient,
    /// Sending frames to the client.
    Streaming,
    /// Done for the rest of the session.
    Finished,
}

/// What happened to the network writer.
#[derive(Clone, Copy, Debug, PartialEq, Eq, Structural)]
pub enum StreamEvent {
    ClientAccepted,
    AcceptFailed,
    SnapshotReceived(TelemetryData),
    FrameWritten,
    WriteFailed,
    QueueClosed,
}

/// What the network writer does next.
#[derive(Debug)]
pub enum StreamAction {
    /// Wait for a client to connect.
    Accept,
    /// Wait for the next snapshot.
    Receive,
    /// Write these bytes to the client.
    Write(Vec<u8>),
    /// Report that no client could be accepted; telemetry ends.
    ReportAcceptFailure,
    /// Stop; later snapshots are dropped.
    Stop,
}

pub open spec fn next_stream_state(state: StreamState, event: StreamEvent) -> StreamState {
    match (state, event) {
        (StreamState::AwaitingClient, StreamEvent::ClientAccepted) => StreamState::Streaming,
        (StreamState::AwaitingClient, StreamEvent::AcceptFailed) => StreamState::Finished,
        (StreamState::AwaitingClient, _) => StreamState::AwaitingClient,
        (StreamState::Streaming, StreamEvent::WriteFailed) => StreamState::Finished,
        (StreamState::Streaming, StreamEvent::QueueClosed) => StreamState::Finished,
        (StreamState::Streaming, _) => StreamState::Streaming,
        (StreamState::Finished, _) => StreamState::Finished,
    }
}

/// The action that follows `event` in `state`.
pub open spec fn expected_action(state: StreamState, event: StreamEvent, action: StreamAction) -> bool {
    match (state, event) {
        (StreamState::AwaitingClient, StreamEvent::ClientAccepted) => action is Receive,
        (StreamState::AwaitingClient, StreamEvent::AcceptFailed) => action is ReportAcceptFailure,
        (StreamState::AwaitingClient, _) => action is Accept,
        (StreamState::Streaming, StreamEvent::SnapshotReceived(s)) => action matches StreamAction::Write(b) && b@ == frame_bytes(s),
        (StreamState::Streaming, StreamEvent::WriteFailed) => action is Stop,
        (StreamState::Streaming, StreamEvent::QueueClosed) => action is Stop,
        (StreamState::Streaming, _) => action is Receive,
        (StreamState::Finished, _) => action is Stop,
    }
}

/// One decision of the network writer: serve one client, write one frame per
/// snapshot in queue order, and stop for good once the client is gone, the
/// queue is closed, or no client could be accepted.
pub fn stream_step(state: StreamState, event: &StreamEvent) -> (r: (StreamState, StreamAction))
    ensures
        r.0 == next_stream_state(state, *event),
        expected_action(state, *event, r.1),
{
    match state {
        StreamState::AwaitingClient => match event {
            StreamEvent::ClientAccepted => (StreamState::Streaming, StreamAction::Receive),
            StreamEvent::AcceptFailed => (StreamState::Finished, StreamAction::ReportAcceptFailure),
            _ => (StreamState::AwaitingClient, StreamAction::Accept),
        },
        StreamState::Streaming => match event {
            StreamEvent::SnapshotReceived(s) => (StreamState::Streaming, StreamAction::Write(encode_frame(s))),
            StreamEvent::WriteFailed => (StreamState::Finished, StreamAction::Stop),
            StreamEvent::QueueClosed => (StreamState::Finished, StreamAction::Stop),
            _ => (StreamState::Streaming, StreamAction::Receive),
        },
        StreamState::Finished => (StreamState::Finished, StreamAction::Stop),
    }
}

/// The frame the writer writes for a snapshot decodes to that snapshot, bit
/// for bit.
pub proof fn lemma_written_frame_decodes(s: TelemetryData, action: StreamAction)
    requires
        expected_action(StreamState::Streaming, StreamEvent::SnapshotReceived(s), action),
    ensures
        action matches StreamAction::Write(b) && parse_frame(b@) == Some(s),
{
    lemma_frame_round_trip(s);
}

} // verus!
