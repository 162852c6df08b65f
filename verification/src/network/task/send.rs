//! The send task: queued packets onto the stream, and a heartbeat when the
//! stream has been idle for a period.
//!
//! The heartbeat is a keepalive for idle times, not a clock of its own: every
//! completed write, of a packet or of a heartbeat, starts the period anew.

use vstd::prelude::*;
use crate::id::NetworkId;
use crate::network::packet::{frame, EncodedPacket, Heartbeat, Packet};
use crate::network::socket::Socket;
use crate::network::wire::{lemma_u32_le_round_trip, Wire};

verus! {

/// The idle time, in milliseconds, after which a heartbeat is written.
pub const HEARTBEAT_PERIOD_MS: u64 = 1000;

/// Where the send task stands.
#[derive(Clone, Copy, Debug, PartialEq, Eq, Structural)]
pub enum SendState {
    /// Nothing is being written; the last write completed, or the task
    /// started, at this time.
    Idle { since: u64 },
    /// A frame was handed to the caller, whose write has not completed.
    Writing,
    /// The task has ended, and has said so.
    Stopped,
}

/// What the caller observed while it waited for the queue, the timer, the
/// stream and the signals.
#[derive(Clone, Debug)]
pub enum SendEvent {
    /// The queue yielded a packet.
    Queued(EncodedPacket),
    /// The queue has no sender left.
    QueueClosed,
    /// The timer that was set for the heartbeat fired.
    TimerFired,
    /// The frame that the task handed out has been written.
    Written,
    /// Writing the frame failed.
    WriteFailed,
    /// The connection's disconnect signal fired.
    Disconnect,
    /// The shutdown signal fired.
    Shutdown,
}

/// What the caller is to do next.
#[derive(Clone, Debug)]
pub enum SendAction {
    /// Write this frame to the stream, and report how that went.
    Write(EncodedPacket),
    /// Wait for the queue, the timer and the signals.
    Wait,
    /// Publish the disconnect signal and end.
    Stop,
}

/// An event by what the decision reads of it: a queued packet by its bytes.
pub enum SendEventView {
    Queued(Seq<u8>),
    QueueClosed,
    TimerFired,
    Written,
    WriteFailed,
    Disconnect,
    Shutdown,
}

/// An action by what the caller reads of it: a frame by its bytes.
pub enum SendActionView {
    Write(Seq<u8>),
    Wait,
    Stop,
}

impl View for SendEvent {
    type V = SendEventView;

    open spec fn view(&self) -> SendEventView {
        match self {
            SendEvent::Queued(packet) => SendEventView::Queued(packet@),
            SendEvent::QueueClosed => SendEventView::QueueClosed,
            SendEvent::TimerFired => SendEventView::TimerFired,
            SendEvent::Written => SendEventView::Written,
            SendEvent::WriteFailed => SendEventView::WriteFailed,
            SendEvent::Disconnect => SendEventView::Disconnect,
            SendEvent::Shutdown => SendEventView::Shutdown,
        }
    }
}

impl View for SendAction {
    type V = SendActionView;

    open spec fn view(&self) -> SendActionView {
        match self {
            SendAction::Write(packet) => SendActionView::Write(packet@),
            SendAction::Wait => SendActionView::Wait,
            SendAction::Stop => SendActionView::Stop,
        }
    }
}

/// Whether the stream has been idle for a whole period at `now`.
pub open spec fn heartbeat_due(since: u64, now: u64) -> bool {
    now - since >= HEARTBEAT_PERIOD_MS
}

/// The heartbeat frame of the union `P`.
pub open spec fn heartbeat_frame<P: Packet>() -> Seq<u8> {
    frame(P::wire(P::spec_heartbeat()))
}

/// The decision of the send task: from the state, what was observed and the
/// time of the observation, to the next state and what to do.
///
/// While idle: a queued packet is written as it is; the timer leads to a
/// heartbeat if a whole period has passed since the last write, and to
/// nothing otherwise; a closed queue and either signal end the task. While
/// writing: completion makes the task idle as of now, a failed write and
/// either signal end it. An event that the state does not wait for ends the
/// task, and a task that has ended stays so.
pub open spec fn send_step(state: SendState, event: SendEventView, now: u64, heartbeat: Seq<u8>) -> (
    SendState,
    SendActionView,
) {
    match (state, event) {
        (SendState::Idle { since }, SendEventView::Queued(bytes)) => (
            SendState::Writing,
            SendActionView::Write(bytes),
        ),
        (SendState::Idle { since }, SendEventView::TimerFired) => {
            if heartbeat_due(since, now) {
                (SendState::Writing, SendActionView::Write(heartbeat))
            } else {
                (state, SendActionView::Wait)
            }
        },
        (SendState::Writing, SendEventView::Written) => (
            SendState::Idle { since: now },
            SendActionView::Wait,
        ),
        _ => (SendState::Stopped, SendActionView::Stop),
    }
}

/// The send task of one connection.
pub struct SendPacketsTask<W> {
    socket: Socket<W>,
    connection_id: NetworkId,
    state: SendState,
}

impl<W> SendPacketsTask<W> {
    pub closed spec fn state(&self) -> SendState {
        self.state
    }

    pub closed spec fn spec_connection_id(&self) -> NetworkId {
        self.connection_id
    }

    /// The stream that the task's frames are written to.
    pub closed spec fn stream(&self) -> W {
        self.socket.stream()
    }

    /// A task that has been idle since `now`.
    pub fn new(io: W, connection_id: NetworkId, now: u64) -> (task: Self)
        ensures
            task.state() == (SendState::Idle { since: now }),
            task.spec_connection_id() == connection_id,
            task.stream() == io,
    {
        SendPacketsTask { socket: Socket::new(io), connection_id, state: SendState::Idle { since: now } }
    }

    pub fn connection_id(&self) -> (id: NetworkId)
        ensures
            id == self.spec_connection_id(),
    {
        self.connection_id
    }

    /// The stream to write to: what the caller leaves of it is the task's
    /// stream from then on.
    pub fn io_mut(&mut self) -> (io: &mut W)
        ensures
            *io == old(self).stream(),
            final(self).stream() == *final(io),
            final(self).state() == old(self).state(),
            final(self).spec_connection_id() == old(self).spec_connection_id(),
    {
        self.socket.parts_mut().0
    }

    /// Whether the task has ended.
    pub fn is_stopped(&self) -> (stopped: bool)
        ensures
            stopped == (self.state() == SendState::Stopped),
    {
        match self.state {
            SendState::Stopped => true,
            _ => false,
        }
    }

    /// How long, in milliseconds, the caller may wait at `now` before the
    /// heartbeat is due: nothing once a period has passed, and nothing to
    /// wait for while a write is under way or the task has ended.
    pub fn time_to_heartbeat(&self, now: u64) -> (wait: Option<u64>)
        ensures
            match self.state() {
                SendState::Idle { since } => {
                    if now < since {
                        wait == Some(HEARTBEAT_PERIOD_MS)
                    } else if heartbeat_due(since, now) {
                        wait == Some(0u64)
                    } else {
                        wait == Some((HEARTBEAT_PERIOD_MS - (now - since)) as u64)
                    }
                },
                _ => wait is None,
            },
    {
        match self.state {
            SendState::Idle { since } => {
                if now < since {
                    Some(HEARTBEAT_PERIOD_MS)
                } else if now - since >= HEARTBEAT_PERIOD_MS {
                    Some(0)
                } else {
                    Some(HEARTBEAT_PERIOD_MS - (now - since))
                }
            },
            _ => None,
        }
    }

    /// What the task does with what was observed at `now`: exactly what
    /// `send_step` says, with the heartbeat of the union `P`.
    pub fn step<P: Packet>(&mut self, event: SendEvent, now: u64) -> (action: SendAction)
        ensures
            (final(self).state(), action@) == send_step(
                old(self).state(),
                event@,
                now,
                heartbeat_frame::<P>(),
            ),
            final(self).spec_connection_id() == old(self).spec_connection_id(),
            final(self).stream() == old(self).stream(),
    {
        let (state, action) = match (self.state, event) {
            (SendState::Idle { since }, SendEvent::Queued(packet)) => (
                SendState::Writing,
                SendAction::Write(packet),
            ),
            (SendState::Idle { since }, SendEvent::TimerFired) => {
                if now >= since && now - since >= HEARTBEAT_PERIOD_MS {
                    (SendState::Writing, SendAction::Write(heartbeat::<P>()))
                } else {
                    (SendState::Idle { since }, SendAction::Wait)
                }
            },
            (SendState::Writing, SendEvent::Written) => (
                SendState::Idle { since: now },
                SendAction::Wait,
            ),
            _ => (SendState::Stopped, SendAction::Stop),
        };
        self.state = state;
        action
    }
}

/// The heartbeat of the union `P`, framed. It always encodes: its encoding is
/// its tag.
pub fn heartbeat<P: Packet>() -> (packet: EncodedPacket)
    ensures
        packet@ == heartbeat_frame::<P>(),
{
    proof {
        P::lemma_heartbeat();
        lemma_u32_le_round_trip(P::spec_tag(P::spec_kind(P::spec_heartbeat())));
    }
    match EncodedPacket::try_encode::<Heartbeat, P>(Heartbeat) {
        Ok(packet) => packet,
        Err(_) => vstd::pervasive::unreached(),
    }
}

/// While packets follow each other within a period, no heartbeat is written:
/// the timer, whenever it fires before a period has passed since the last
/// write, changes nothing and asks for nothing.
pub proof fn lemma_heartbeat_suppressed(since: u64, now: u64, heartbeat: Seq<u8>)
    requires
        now - since < HEARTBEAT_PERIOD_MS,
    ensures
        send_step(SendState::Idle { since }, SendEventView::TimerFired, now, heartbeat) == (
            SendState::Idle { since },
            SendActionView::Wait,
        ),
{
}

/// A packet that is queued is written as it is, whatever the time: traffic is
/// never held back, or replaced, by the heartbeat.
pub proof fn lemma_queued_is_written(since: u64, now: u64, bytes: Seq<u8>, heartbeat: Seq<u8>)
    ensures
        send_step(SendState::Idle { since }, SendEventView::Queued(bytes), now, heartbeat) == (
            SendState::Writing,
            SendActionView::Write(bytes),
        ),
{
}

/// Once the stream has been idle for a period, the timer leads to one
/// heartbeat; when its write completes the period starts anew, so that the
/// next heartbeat is not due before another period has passed.
pub proof fn lemma_one_heartbeat_per_period(
    since: u64,
    fired: u64,
    written: u64,
    again: u64,
    heartbeat: Seq<u8>,
)
    requires
        fired - since >= HEARTBEAT_PERIOD_MS,
        fired <= written <= again,
        again - written < HEARTBEAT_PERIOD_MS,
    ensures
        ({
            let first = send_step(
                SendState::Idle { since },
                SendEventView::TimerFired,
                fired,
                heartbeat,
            );
            let second = send_step(first.0, SendEventView::Written, written, heartbeat);
            let third = send_step(second.0, SendEventView::TimerFired, again, heartbeat);
            &&& first.1 == SendActionView::Write(heartbeat)
            &&& second.0 == (SendState::Idle { since: written })
            &&& third == (second.0, SendActionView::Wait)
        }),
{
}

/// What a run of observations leads to: the state at its end and the frames
/// that were handed out for writing, in order.
pub open spec fn send_run(
    state: SendState,
    events: Seq<(SendEventView, u64)>,
    heartbeat: Seq<u8>,
) -> (SendState, Seq<Seq<u8>>)
    decreases events.len(),
{
    if events.len() == 0 {
        (state, Seq::empty())
    } else {
        let (next, action) = send_step(state, events[0].0, events[0].1, heartbeat);
        let (last, frames) = send_run(next, events.drop_first(), heartbeat);
        match action {
            SendActionView::Write(bytes) => (last, seq![bytes] + frames),
            _ => (last, frames),
        }
    }
}

/// Whether a run is one of steady traffic: nothing but queued packets, their
/// completed writes and timer events, each observation less than a period
/// after the write before it.
pub open spec fn steady_traffic(since: u64, events: Seq<(SendEventView, u64)>) -> bool
    decreases events.len(),
{
    if events.len() == 0 {
        true
    } else {
        let (event, now) = events[0];
        &&& now - since < HEARTBEAT_PERIOD_MS
        &&& match event {
            SendEventView::TimerFired => steady_traffic(since, events.drop_first()),
            SendEventView::Queued(_) => {
                &&& events.len() >= 2
                &&& events[1].0 is Written
                &&& events[1].1 >= now
                &&& steady_traffic(events[1].1, events.drop_first().drop_first())
            },
            _ => false,
        }
    }
}

/// The packets of a run, in the order in which they were queued.
pub open spec fn queued_in(events: Seq<(SendEventView, u64)>) -> Seq<Seq<u8>>
    decreases events.len(),
{
    if events.len() == 0 {
        Seq::empty()
    } else {
        match events[0].0 {
            SendEventView::Queued(bytes) => seq![bytes] + queued_in(events.drop_first()),
            _ => queued_in(events.drop_first()),
        }
    }
}

/// Under steady traffic the stream carries the queued packets, in their
/// order, and nothing else: no heartbeat is written between them.
pub proof fn lemma_steady_traffic_needs_no_heartbeat(
    since: u64,
    events: Seq<(SendEventView, u64)>,
    heartbeat: Seq<u8>,
)
    requires
        steady_traffic(since, events),
    ensures
        send_run(SendState::Idle { since }, events, heartbeat).1 == queued_in(events),
        send_run(SendState::Idle { since }, events, heartbeat).0 is Idle,
    decreases events.len(),
{
    if events.len() > 0 {
        let (event, now) = events[0];
        let rest = events.drop_first();
        match event {
            SendEventView::TimerFired => {
                lemma_steady_traffic_needs_no_heartbeat(since, rest, heartbeat);
            },
            SendEventView::Queued(bytes) => {
                let after = rest.drop_first();
                lemma_steady_traffic_needs_no_heartbeat(events[1].1, after, heartbeat);
                assert(rest[0] == events[1]);
                assert(queued_in(rest) == queued_in(after));
                assert(send_run(SendState::Writing, rest, heartbeat) == send_run(
                    SendState::Idle { since: events[1].1 },
                    after,
                    heartbeat,
                ));
            },
            _ => {},
        }
    }
}

} // verus!
