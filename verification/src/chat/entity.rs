//! The chat log and what it is made of.

use vstd::prelude::*;
use vstd::std_specs::convert::FromSpec;
use crate::chat::packet::MessageReceived;
use crate::id::NetworkId;
use crate::network::error::WireError;
use crate::network::wire::{u32_le, Wire};

verus! {

/// How far a message carries.
#[derive(Clone, Copy, Debug, PartialEq, Eq, Structural)]
pub enum MessageKind {
    Shout,
}

impl View for MessageKind {
    type V = MessageKind;

    open spec fn view(&self) -> MessageKind {
        *self
    }
}

impl Wire for MessageKind {
    open spec fn wire(value: MessageKind) -> Seq<u8> {
        u32_le(0)
    }

    open spec fn fits(value: MessageKind) -> bool {
        true
    }

    open spec fn parse(bytes: Seq<u8>, at: int) -> core::result::Result<(MessageKind, int), WireError> {
        match u32::parse(bytes, at) {
            Ok((tag, next)) => {
                if tag == 0 {
                    Ok((MessageKind::Shout, next))
                } else {
                    Err(WireError::InvalidVariant)
                }
            },
            Err(error) => Err(error),
        }
    }

    proof fn lemma_parse_wire(bytes: Seq<u8>, at: int, value: MessageKind) {
        u32::lemma_parse_wire(bytes, at, 0);
    }

    proof fn lemma_wire_parse(bytes: Seq<u8>, at: int) {
        u32::lemma_wire_parse(bytes, at);
    }

    fn write_to(&self, out: &mut Vec<u8>) -> (done: core::result::Result<(), WireError>) {
        0u32.write_to(out)
    }

    fn read_from(bytes: &[u8], at: usize) -> (read: core::result::Result<
        (MessageKind, usize),
        WireError,
    >) {
        match u32::read_from(bytes, at) {
            Ok((tag, next)) => {
                if tag == 0 {
                    Ok((MessageKind::Shout, next))
                } else {
                    Err(WireError::InvalidVariant)
                }
            },
            Err(error) => Err(error),
        }
    }
}

/// One line of the chat log.
#[derive(Clone, Debug, PartialEq, Eq)]
pub struct Message {
    sender: NetworkId,
    contents: String,
    kind: MessageKind,
}

impl Message {
    pub closed spec fn spec_sender(&self) -> NetworkId {
        self.sender
    }

    pub closed spec fn spec_contents(&self) -> Seq<char> {
        self.contents@
    }

    pub closed spec fn spec_kind(&self) -> MessageKind {
        self.kind
    }

    /// The line that records `received`.
    pub open spec fn records(&self, received: MessageReceived) -> bool {
        &&& self.spec_sender() == received.sender
        &&& self.spec_contents() == received.contents@
        &&& self.spec_kind() == received.kind
    }

    #[verifier::when_used_as_spec(spec_sender)]
    pub fn sender(&self) -> (sender: NetworkId)
        ensures
            sender == self.spec_sender(),
    {
        self.sender
    }

    pub fn contents(&self) -> (contents: &String)
        ensures
            contents@ == self.spec_contents(),
    {
        &self.contents
    }

    #[verifier::when_used_as_spec(spec_kind)]
    pub fn kind(&self) -> (kind: MessageKind)
        ensures
            kind == self.spec_kind(),
    {
        self.kind
    }
}

impl From<MessageReceived> for Message {
    fn from(value: MessageReceived) -> (message: Self) {
        Message { sender: value.sender, contents: value.contents, kind: value.kind }
    }
}

impl vstd::std_specs::convert::FromSpecImpl<MessageReceived> for Message {
    open spec fn obeys_from_spec() -> bool {
        true
    }

    closed spec fn from_spec(value: MessageReceived) -> Self {
        Message { sender: value.sender, contents: value.contents, kind: value.kind }
    }
}

/// A `Message` made from a received packet records that packet.
pub broadcast proof fn lemma_message_from_received(received: MessageReceived)
    ensures
        (#[trigger] <Message as FromSpec<MessageReceived>>::from_spec(received)).records(received),
{
}

/// The chat log, oldest line first.
pub struct Chat {
    pub messages: Vec<Message>,
}

impl Chat {
    /// Appends the line that records `message`.
    pub fn push(&mut self, message: MessageReceived)
        ensures
            final(self).messages@.len() == old(self).messages@.len() + 1,
            final(self).messages@.drop_last() == old(self).messages@,
            final(self).messages@.last().records(message),
    {
        proof {
            lemma_message_from_received(message);
        }
        self.messages.push(Message::from(message));
        assert(self.messages@.drop_last() =~= old(self).messages@);
    }
}

impl Default for Chat {
    fn default() -> (chat: Self)
        ensures
            chat.messages@.len() == 0,
    {
        Chat { messages: Vec::new() }
    }
}

/// The line that the user is typing.
pub struct ChatInput {
    pub input: String,
}

impl Default for ChatInput {
    fn default() -> (line: Self)
        ensures
            line.input@.len() == 0,
    {
        ChatInput { input: String::new() }
    }
}

} // verus!
