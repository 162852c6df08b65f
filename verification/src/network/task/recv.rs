//! The receive task: frame by frame from the stream to the mediator.

use vstd::prelude::*;
use crate::id::NetworkId;
use crate::network::error::{Error, IoErrorKind, Result};
use crate::network::mediator::{AnyPacketHandler, AnyPacketMediator, RoutedPacket};
use crate::network::packet::{AnyPacketWithConnId, Packet};
use crate::network::socket::{header_length, Socket};
use crate::network::wire::Wire;

verus! {

/// Where the receive task stands between two reads.
#[derive(Clone, Copy, Debug, PartialEq, Eq, Structural)]
pub enum ReceiveState {
    /// The next thing on the stream is a frame's header.
    AwaitingHeader,
    /// The header announced a body of this length, which is next.
    AwaitingBody(usize),
    /// The task has ended, and has said so.
    Stopped,
}

/// What the caller observed while it waited for the stream and the signals.
#[derive(Clone, Copy, Debug)]
pub enum ReceiveEvent {
    /// The four bytes of a header were read.
    Header([u8; 4]),
    /// The body was read into the task's buffer.
    Body,
    /// The stream failed or ended.
    ReadFailed,
    /// The connection's disconnect signal fired.
    Disconnect,
    /// The shutdown signal fired.
    Shutdown,
}

/// What the caller is to do next.
#[derive(Clone, Copy, Debug, PartialEq, Eq, Structural)]
pub enum ReceiveAction {
    /// Read the four bytes of the next header.
    ReadHeader,
    /// Read a body of this length into the task's buffer.
    ReadBody(usize),
    /// Publish the disconnect signal and end.
    Stop,
}

impl ReceiveAction {
    /// The state in which the task waits for the action's outcome.
    pub open spec fn awaited_in(self) -> ReceiveState {
        match self {
            ReceiveAction::ReadHeader => ReceiveState::AwaitingHeader,
            ReceiveAction::ReadBody(length) => ReceiveState::AwaitingBody(length),
            ReceiveAction::Stop => ReceiveState::Stopped,
        }
    }
}

/// Whether the task, in `state`, waits for `event`: for a header when a
/// header is next, for the body when a body is next. Whatever else is
/// observed ends the task.
pub open spec fn receive_expects(state: ReceiveState, event: ReceiveEvent) -> bool {
    match (state, event) {
        (ReceiveState::AwaitingHeader, ReceiveEvent::Header(_)) => true,
        (ReceiveState::AwaitingBody(_), ReceiveEvent::Body) => true,
        _ => false,
    }
}

/// What the mediator's answer means for the task: a packet that was handed
/// over is followed by the next header, a consumer that is gone ends the
/// task.
pub fn routed(handled: Result<()>) -> (action: ReceiveAction)
    ensures
        handled is Ok ==> action == ReceiveAction::ReadHeader,
        handled is Err ==> action == ReceiveAction::Stop,
{
    match handled {
        Ok(()) => ReceiveAction::ReadHeader,
        Err(_) => ReceiveAction::Stop,
    }
}

/// The receive task of one connection.
pub struct ReceivePacketsTask<R, T: RoutedPacket> {
    socket: Socket<R>,
    packet_mediator: AnyPacketMediator<T>,
    connection_id: NetworkId,
    state: ReceiveState,
}

impl<R, T: RoutedPacket> ReceivePacketsTask<R, T> {
    pub closed spec fn state(&self) -> ReceiveState {
        self.state
    }

    pub closed spec fn spec_connection_id(&self) -> NetworkId {
        self.connection_id
    }

    /// The routing table that the task sends its packets through.
    pub closed spec fn mediator(&self) -> AnyPacketMediator<T> {
        self.packet_mediator
    }

    /// The stream that the task's frames are read from.
    pub closed spec fn stream(&self) -> R {
        self.socket.stream()
    }

    /// The body of the frame that is being read.
    pub closed spec fn body(&self) -> Seq<u8> {
        self.socket.body()
    }

    /// The number of bytes of the announced body that have not been read
    /// from the stream yet.
    pub closed spec fn missing(&self) -> nat {
        self.socket.missing()
    }

    /// The routing table has a handler for every kind, and the buffer has the
    /// length that the header announced.
    pub closed spec fn wf(&self) -> bool {
        &&& self.packet_mediator@.complete()
        &&& self.state matches ReceiveState::AwaitingBody(length) ==> self.socket.body().len()
            == length && self.socket.missing() <= length
    }

    /// A task that waits for the first header. The routing table has to be
    /// complete: a kind without a handler is a fault of the program, not of
    /// the peer.
    pub fn new(socket: R, packet_mediator: AnyPacketMediator<T>, connection_id: u64) -> (task: Self)
        requires
            packet_mediator@.complete(),
        ensures
            task.wf(),
            task.state() == ReceiveState::AwaitingHeader,
            task.spec_connection_id()@ == connection_id,
            task.mediator() == packet_mediator,
            task.stream() == socket,
    {
        ReceivePacketsTask {
            socket: Socket::new(socket),
            packet_mediator,
            connection_id: NetworkId(connection_id),
            state: ReceiveState::AwaitingHeader,
        }
    }

    pub fn connection_id(&self) -> (id: NetworkId)
        ensures
            id == self.spec_connection_id(),
    {
        self.connection_id
    }

    /// Whether the task has ended.
    pub fn is_stopped(&self) -> (stopped: bool)
        ensures
            stopped == (self.state() == ReceiveState::Stopped),
    {
        match self.state {
            ReceiveState::Stopped => true,
            _ => false,
        }
    }

    /// The stream, and the buffer to read the announced body into. The task
    /// stays as it is when the buffer is given back with the length that it
    /// had.
    pub fn parts_mut(&mut self) -> (parts: (&mut R, &mut [u8]))
        requires
            old(self).wf(),
        ensures
            *parts.0 == old(self).stream(),
            parts.1@ == old(self).body(),
            final(parts.1)@.len() == parts.1@.len() ==> final(self).wf(),
            final(self).stream() == *final(parts.0),
            final(self).body() == final(parts.1)@,
            final(self).missing() == old(self).missing(),
            final(self).state() == old(self).state(),
            final(self).spec_connection_id() == old(self).spec_connection_id(),
            final(self).mediator() == old(self).mediator(),
    {
        self.socket.parts_mut()
    }

    /// What the task does with what was observed.
    ///
    /// A header with a length that a frame may have asks for the body. A
    /// body that was read is decoded: what `arrived` gives is handed to the
    /// mediator, and `routed` says what follows from the mediator's answer,
    /// the next header or the end. Everything else ends the task: a failed
    /// read, a signal, a header that announces too much, a body that does
    /// not decode, and an event that the task was not waiting for. A task
    /// that has ended stays so.
    pub fn step(&mut self, event: ReceiveEvent) -> (action: ReceiveAction)
        requires
            old(self).wf(),
        ensures
            final(self).wf(),
            final(self).state() == action.awaited_in(),
            final(self).spec_connection_id() == old(self).spec_connection_id(),
            final(self).mediator() == old(self).mediator(),
            final(self).stream() == old(self).stream(),
            !receive_expects(old(self).state(), event) ==> action == ReceiveAction::Stop,
            match (old(self).state(), event) {
                (ReceiveState::AwaitingHeader, ReceiveEvent::Header(header)) => {
                    match header_length(header@) {
                        Ok(length) => action == ReceiveAction::ReadBody(length),
                        Err(_) => action == ReceiveAction::Stop,
                    }
                },
                (ReceiveState::AwaitingBody(_), ReceiveEvent::Body) => {
                    match T::parse(old(self).body(), 0) {
                        Ok((value, _)) => {
                            &&& action == ReceiveAction::ReadHeader || action == ReceiveAction::Stop
                            &&& old(self).mediator()@.handler(T::spec_kind(value)).discards()
                                ==> action == ReceiveAction::ReadHeader
                        },
                        Err(_) => action == ReceiveAction::Stop,
                    }
                },
                _ => action == ReceiveAction::Stop,
            },
    {
        let action = match (self.state, event) {
            (ReceiveState::AwaitingHeader, ReceiveEvent::Header(header)) => {
                match self.socket.ready(header) {
                    Ok(length) => ReceiveAction::ReadBody(length),
                    Err(_) => ReceiveAction::Stop,
                }
            },
            (ReceiveState::AwaitingBody(length), ReceiveEvent::Body) => {
                self.socket.received(length);
                match self.arrived() {
                    Ok(packet) => routed(self.packet_mediator.send(packet)),
                    Err(_) => ReceiveAction::Stop,
                }
            },
            _ => ReceiveAction::Stop,
        };
        self.state = match action {
            ReceiveAction::ReadHeader => ReceiveState::AwaitingHeader,
            ReceiveAction::ReadBody(length) => ReceiveState::AwaitingBody(length),
            ReceiveAction::Stop => ReceiveState::Stopped,
        };
        action
    }

    /// The packet that the buffer holds, under the id of the task's
    /// connection: what the task hands to the mediator. A body of which the
    /// stream has not supplied every byte is a read error.
    pub fn arrived(&self) -> (arrived: Result<AnyPacketWithConnId<T>>)
        ensures
            self.missing() > 0 ==> arrived == Err::<AnyPacketWithConnId<T>, Error>(
                Error::Io(IoErrorKind::UnexpectedEof),
            ),
            self.missing() == 0 ==> match T::parse(self.body(), 0) {
                Ok((value, _)) => {
                    &&& arrived is Ok
                    &&& arrived->Ok_0.packet@ == value
                    &&& arrived->Ok_0.connection_id == self.spec_connection_id()
                },
                Err(error) => arrived == Err::<AnyPacketWithConnId<T>, Error>(Error::Wire(error)),
            },
    {
        match self.socket.next::<T>() {
            Ok(packet) => Ok(AnyPacketWithConnId { packet, connection_id: self.connection_id }),
            Err(error) => Err(error),
        }
    }
}

} // verus!
