//! The framer: one length-prefixed packet at a time.

use vstd::prelude::*;
use crate::network::error::{Error, IoErrorKind, Result, WireError};
use crate::network::packet::{frame, Packet};
use crate::network::wire::{lemma_u32_le_round_trip, u32_from_le, Wire};

verus! {

/// The longest body that a frame may announce.
pub const MAX_PACKET_LENGTH: usize = 5000;

/// What the framer does with a frame's four header bytes: the length of the
/// body that follows, or the refusal of a frame that is too long.
pub open spec fn header_length(header: Seq<u8>) -> Result<usize>
    recommends
        header.len() == 4,
{
    if u32_from_le(header) > MAX_PACKET_LENGTH {
        Err(Error::Io(IoErrorKind::InvalidData))
    } else {
        Ok(u32_from_le(header) as usize)
    }
}

/// What reading one frame from the front of `stream` gives: the packet and
/// the number of bytes that the frame took, or the error that ends the
/// connection. A stream that ends inside a frame gives `UnexpectedEof`; the
/// length is judged before any of the body is looked at.
pub open spec fn parse_frame<P: Packet>(stream: Seq<u8>) -> Result<(P::V, int)> {
    if stream.len() < 4 {
        Err(Error::Io(IoErrorKind::UnexpectedEof))
    } else {
        match header_length(stream.subrange(0, 4)) {
            Err(error) => Err(error),
            Ok(length) => {
                if stream.len() < 4 + length {
                    Err(Error::Io(IoErrorKind::UnexpectedEof))
                } else {
                    match P::parse(stream.subrange(4, 4 + length), 0) {
                        Ok((value, _)) => Ok((value, 4 + length)),
                        Err(error) => Err(Error::Wire(error)),
                    }
                }
            },
        }
    }
}

/// A stream and the buffer that holds the body of the frame being read.
///
/// The framer never touches the stream itself: the caller reads the four
/// header bytes and hands them to `ready`, fills the buffer that `ready` has
/// sized, says with `received` how much of it was read, and asks `next` for
/// the packet.
pub struct Socket<T> {
    io: T,
    buffer: Vec<u8>,
    unread: usize,
}

impl<T> Socket<T> {
    /// The stream.
    pub closed spec fn stream(&self) -> T {
        self.io
    }

    /// The body of the frame being read.
    pub closed spec fn body(&self) -> Seq<u8> {
        self.buffer@
    }

    /// The number of bytes of the announced body that have not been read
    /// from the stream yet.
    pub closed spec fn missing(&self) -> nat {
        self.unread as nat
    }

    pub fn new(io: T) -> (socket: Self)
        ensures
            socket.stream() == io,
            socket.body() == Seq::<u8>::empty(),
            socket.missing() == 0,
    {
        Socket { io, buffer: Vec::with_capacity(MAX_PACKET_LENGTH), unread: 0 }
    }

    /// Judges a frame by its header. A length above `MAX_PACKET_LENGTH` is
    /// refused with `InvalidData`; otherwise the buffer is sized, and zeroed,
    /// for the body, all of which is still to be read.
    pub fn ready(&mut self, header: [u8; 4]) -> (length: Result<usize>)
        ensures
            length == header_length(header@),
            final(self).stream() == old(self).stream(),
            length matches Ok(announced) ==> final(self).body() == Seq::new(
                announced as nat,
                |i: int| 0u8,
            ) && final(self).missing() == announced,
            length is Err ==> final(self).body() == old(self).body() && final(self).missing()
                == old(self).missing(),
    {
        let (announced, _) = match u32::read_from(header.as_slice(), 0) {
            Ok(read) => read,
            Err(_) => return Err(Error::Io(IoErrorKind::UnexpectedEof)),
        };
        assert(header@.subrange(0, 4) =~= header@);
        let length = announced as usize;
        if length > MAX_PACKET_LENGTH {
            return Err(Error::Io(IoErrorKind::InvalidData));
        }
        self.buffer.clear();
        self.unread = length;
        while self.buffer.len() < length
            invariant
                self.io == old(self).io,
                self.unread == length,
                self.buffer@.len() <= length,
                forall|i: int| 0 <= i < self.buffer@.len() ==> self.buffer@[i] == 0u8,
            decreases length - self.buffer@.len(),
        {
            self.buffer.push(0);
        }
        assert(self.buffer@ =~= Seq::new(length as nat, |i: int| 0u8));
        Ok(length)
    }

    /// The stream, and the buffer for the caller to read the body into. The
    /// buffer keeps its length.
    pub fn parts_mut(&mut self) -> (parts: (&mut T, &mut [u8]))
        ensures
            *parts.0 == old(self).stream(),
            parts.1@ == old(self).body(),
            final(self).stream() == *final(parts.0),
            final(self).body() == final(parts.1)@,
            final(self).missing() == old(self).missing(),
    {
        (&mut self.io, self.buffer.as_mut_slice())
    }

    /// Takes note that `count` more bytes of the body were read from the
    /// stream into the buffer.
    pub fn received(&mut self, count: usize)
        ensures
            final(self).missing() == if count >= old(self).missing() {
                0
            } else {
                old(self).missing() - count
            },
            final(self).stream() == old(self).stream(),
            final(self).body() == old(self).body(),
    {
        self.unread = if count >= self.unread {
            0
        } else {
            self.unread - count
        };
    }

    /// Decodes the packet that the buffer holds. A body of which the stream
    /// has not supplied every byte is a read error, `UnexpectedEof`, and is
    /// not decoded in part. Bytes behind the packet are ignored.
    pub fn next<P: Packet>(&self) -> (packet: Result<P>)
        ensures
            self.missing() > 0 ==> packet == Err::<P, Error>(
                Error::Io(IoErrorKind::UnexpectedEof),
            ),
            self.missing() == 0 ==> match P::parse(self.body(), 0) {
                Ok((value, _)) => packet is Ok && packet->Ok_0@ == value,
                Err(error) => packet == Err::<P, Error>(Error::Wire(error)),
            },
    {
        if self.unread > 0 {
            return Err(Error::Io(IoErrorKind::UnexpectedEof));
        }
        match P::read_from(self.buffer.as_slice(), 0) {
            Ok((packet, _)) => Ok(packet),
            Err(error) => Err(Error::Wire(error)),
        }
    }
}

/// Reads one frame from the front of `stream`, as the framer would from a
/// stream that holds these bytes and then ends.
pub fn read_frame<P: Packet>(stream: &[u8]) -> (read: Result<(P, usize)>)
    ensures
        match parse_frame::<P>(stream@) {
            Ok((value, taken)) => {
                &&& read is Ok
                &&& read->Ok_0.0@ == value
                &&& read->Ok_0.1 == taken
                &&& taken <= stream@.len()
            },
            Err(error) => read is Err && read->Err_0 == error,
        },
{
    if stream.len() < 4 {
        return Err(Error::Io(IoErrorKind::UnexpectedEof));
    }
    let header: [u8; 4] = [stream[0], stream[1], stream[2], stream[3]];
    assert(header@ =~= stream@.subrange(0, 4));
    let mut socket = Socket::new(());
    let length = match socket.ready(header) {
        Ok(length) => length,
        Err(error) => return Err(error),
    };
    if stream.len() - 4 < length {
        return Err(Error::Io(IoErrorKind::UnexpectedEof));
    }
    let (_, buffer) = socket.parts_mut();
    let total = stream.len();
    let mut i: usize = 0;
    while i < length
        invariant
            i <= length,
            total == stream@.len(),
            4 + length <= stream@.len(),
            buffer@.len() == length,
            forall|j: int| 0 <= j < i ==> buffer@[j] == stream@[4 + j],
        decreases length - i,
    {
        buffer[i] = stream[4 + i];
        i = i + 1;
    }
    assert(buffer@ =~= stream@.subrange(4, 4 + length));
    socket.received(length);
    match socket.next::<P>() {
        Ok(packet) => Ok((packet, 4 + length)),
        Err(error) => Err(error),
    }
}

/// A packet that was framed is read back from its frame, whatever follows
/// the frame on the stream, as long as its encoding is no longer than a frame
/// may be.
pub proof fn lemma_frame_round_trip<P: Packet>(value: P::V, rest: Seq<u8>)
    requires
        P::fits(value),
        P::wire(value).len() <= MAX_PACKET_LENGTH,
    ensures
        parse_frame::<P>(frame(P::wire(value)) + rest) == Ok::<(P::V, int), Error>(
            (value, 4 + P::wire(value).len() as int),
        ),
{
    let body = P::wire(value);
    let stream = frame(body) + rest;
    lemma_u32_le_round_trip(body.len() as u32);
    assert(stream.subrange(0, 4) =~= crate::network::wire::u32_le(body.len() as u32));
    assert(stream.subrange(4, 4 + body.len() as int) =~= body);
    assert(body.subrange(0, body.len() as int) =~= body);
    P::lemma_parse_wire(body, 0, value);
}

/// A frame is read in two steps as it was written: its first four bytes
/// announce the length of the packet's encoding, and the bytes behind them
/// parse to the packet. So what a sender frames is, at the receiver, the
/// body that `ready` asks for and the packet that `next` decodes.
pub proof fn lemma_frame_is_header_and_body<P: Packet>(value: P::V)
    requires
        P::fits(value),
        P::wire(value).len() <= MAX_PACKET_LENGTH,
    ensures
        frame(P::wire(value)).len() == 4 + P::wire(value).len(),
        header_length(frame(P::wire(value)).subrange(0, 4)) == Ok::<usize, Error>(
            P::wire(value).len() as usize,
        ),
        frame(P::wire(value)).subrange(4, 4 + P::wire(value).len() as int) == P::wire(value),
        P::parse(P::wire(value), 0) == Ok::<(P::V, int), WireError>(
            (value, P::wire(value).len() as int),
        ),
{
    let body = P::wire(value);
    let framed = frame(body);
    lemma_u32_le_round_trip(body.len() as u32);
    assert(framed.subrange(0, 4) =~= crate::network::wire::u32_le(body.len() as u32));
    assert(framed.subrange(4, 4 + body.len() as int) =~= body);
    assert(body.subrange(0, body.len() as int) =~= body);
    P::lemma_parse_wire(body, 0, value);
}

/// A frame that announces more than `MAX_PACKET_LENGTH` bytes is refused,
/// whatever follows its header.
pub proof fn lemma_long_frame_refused<P: Packet>(stream: Seq<u8>)
    requires
        stream.len() >= 4,
        u32_from_le(stream.subrange(0, 4)) > MAX_PACKET_LENGTH,
    ensures
        parse_frame::<P>(stream) == Err::<(P::V, int), Error>(Error::Io(IoErrorKind::InvalidData)),
{
}

/// A stream that ends before the announced body does gives a read error, and
/// no packet.
pub proof fn lemma_short_frame_refused<P: Packet>(stream: Seq<u8>)
    requires
        stream.len() >= 4,
        u32_from_le(stream.subrange(0, 4)) <= MAX_PACKET_LENGTH,
        stream.len() < 4 + u32_from_le(stream.subrange(0, 4)),
    ensures
        parse_frame::<P>(stream) == Err::<(P::V, int), Error>(
            Error::Io(IoErrorKind::UnexpectedEof),
        ),
{
}

} // verus!
