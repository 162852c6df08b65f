//! The chat packets.

use vstd::prelude::*;
use crate::network::error::WireError;
use crate::network::wire::{lemma_join_subrange, lemma_split_subrange, Wire};
use crate::chat::entity::MessageKind;
use crate::id::NetworkId;
use crate::network::mediator::PacketWithConnId;

verus! {

/// A chat message as a client sends it.
#[derive(Clone, Debug, PartialEq, Eq)]
pub struct SendMessage {
    pub kind: MessageKind,
    pub contents: String,
}

/// What a `SendMessage` holds, its text as a sequence of characters.
pub struct SendMessageView {
    pub kind: MessageKind,
    pub contents: Seq<char>,
}

impl View for SendMessage {
    type V = SendMessageView;

    open spec fn view(&self) -> SendMessageView {
        SendMessageView { kind: self.kind, contents: self.contents@ }
    }
}

impl Wire for SendMessage {
    open spec fn wire(value: SendMessageView) -> Seq<u8> {
        MessageKind::wire(value.kind) + String::wire(value.contents)
    }

    open spec fn fits(value: SendMessageView) -> bool {
        String::fits(value.contents)
    }

    open spec fn parse(bytes: Seq<u8>, at: int) -> core::result::Result<(SendMessageView, int), WireError> {
        match MessageKind::parse(bytes, at) {
            Ok((kind, after_kind)) => {
                match String::parse(bytes, after_kind) {
                    Ok((contents, after_contents)) => {
                        Ok((SendMessageView { kind, contents }, after_contents))
                    },
                    Err(error) => Err(error),
                }
            },
            Err(error) => Err(error),
        }
    }

    proof fn lemma_parse_wire(bytes: Seq<u8>, at: int, value: SendMessageView) {
        let kind = MessageKind::wire(value.kind);
        let contents = String::wire(value.contents);
        lemma_split_subrange(bytes, at, kind, contents);
        MessageKind::lemma_parse_wire(bytes, at, value.kind);
        String::lemma_parse_wire(bytes, at + kind.len(), value.contents);
    }

    proof fn lemma_wire_parse(bytes: Seq<u8>, at: int) {
        MessageKind::lemma_wire_parse(bytes, at);
        if let Ok((kind, after_kind)) = MessageKind::parse(bytes, at) {
            String::lemma_wire_parse(bytes, after_kind);
            if let Ok((contents, after_contents)) = String::parse(bytes, after_kind) {
                lemma_join_subrange(bytes, at, after_kind, after_contents);
            }
        }
    }

    fn write_to(&self, out: &mut Vec<u8>) -> (done: core::result::Result<(), WireError>) {
        let _ = self.kind.write_to(out);
        match self.contents.write_to(out) {
            Ok(()) => {},
            Err(error) => return Err(error),
        }
        assert(out@ =~= old(out)@ + Self::wire(self@));
        Ok(())
    }

    fn read_from(bytes: &[u8], at: usize) -> (read: core::result::Result<(SendMessage, usize), WireError>) {
        let (kind, after_kind) = match MessageKind::read_from(bytes, at) {
            Ok(read) => read,
            Err(error) => return Err(error),
        };
        let (contents, after_contents) = match String::read_from(bytes, after_kind) {
            Ok(read) => read,
            Err(error) => return Err(error),
        };
        Ok((SendMessage { kind, contents }, after_contents))
    }
}

/// A chat message as the server hands it on, with the connection that it
/// came from.
#[derive(Clone, Debug, PartialEq, Eq)]
pub struct MessageReceived {
    pub sender: NetworkId,
    pub kind: MessageKind,
    pub contents: String,
}

/// What a `MessageReceived` holds, its text as a sequence of characters.
pub struct MessageReceivedView {
    pub sender: NetworkId,
    pub kind: MessageKind,
    pub contents: Seq<char>,
}

impl View for MessageReceived {
    type V = MessageReceivedView;

    open spec fn view(&self) -> MessageReceivedView {
        MessageReceivedView { sender: self.sender, kind: self.kind, contents: self.contents@ }
    }
}

impl Wire for MessageReceived {
    open spec fn wire(value: MessageReceivedView) -> Seq<u8> {
        NetworkId::wire(value.sender@) + (MessageKind::wire(value.kind) + String::wire(value.contents))
    }

    open spec fn fits(value: MessageReceivedView) -> bool {
        String::fits(value.contents)
    }

    open spec fn parse(bytes: Seq<u8>, at: int) -> core::result::Result<(MessageReceivedView, int), WireError> {
        match NetworkId::parse(bytes, at) {
            Ok((sender, after_sender)) => {
                match MessageKind::parse(bytes, after_sender) {
                    Ok((kind, after_kind)) => {
                        match String::parse(bytes, after_kind) {
                            Ok((contents, after_contents)) => {
                                Ok((MessageReceivedView { sender: NetworkId(sender), kind, contents }, after_contents))
                            },
                            Err(error) => Err(error),
                        }
                    },
                    Err(error) => Err(error),
                }
            },
            Err(error) => Err(error),
        }
    }

    proof fn lemma_parse_wire(bytes: Seq<u8>, at: int, value: MessageReceivedView) {
        let sender = NetworkId::wire(value.sender@);
        let kind = MessageKind::wire(value.kind);
        let contents = String::wire(value.contents);
        lemma_split_subrange(bytes, at, sender, kind + contents);
        NetworkId::lemma_parse_wire(bytes, at, value.sender@);
        lemma_split_subrange(bytes, at + sender.len(), kind, contents);
        MessageKind::lemma_parse_wire(bytes, at + sender.len(), value.kind);
        String::lemma_parse_wire(bytes, at + sender.len() + kind.len(), value.contents);
    }

    proof fn lemma_wire_parse(bytes: Seq<u8>, at: int) {
        NetworkId::lemma_wire_parse(bytes, at);
        if let Ok((sender, after_sender)) = NetworkId::parse(bytes, at) {
            MessageKind::lemma_wire_parse(bytes, after_sender);
            if let Ok((kind, after_kind)) = MessageKind::parse(bytes, after_sender) {
                String::lemma_wire_parse(bytes, after_kind);
                if let Ok((contents, after_contents)) = String::parse(bytes, after_kind) {
                    lemma_join_subrange(bytes, after_sender, after_kind, after_contents);
                    lemma_join_subrange(bytes, at, after_sender, after_contents);
                }
            }
        }
    }

    fn write_to(&self, out: &mut Vec<u8>) -> (done: core::result::Result<(), WireError>) {
        let _ = self.sender.write_to(out);
        let _ = self.kind.write_to(out);
        match self.contents.write_to(out) {
            Ok(()) => {},
            Err(error) => return Err(error),
        }
        assert(out@ =~= old(out)@ + Self::wire(self@));
        Ok(())
    }

    fn read_from(bytes: &[u8], at: usize) -> (read: core::result::Result<(MessageReceived, usize), WireError>) {
        let (sender, after_sender) = match NetworkId::read_from(bytes, at) {
            Ok(read) => read,
            Err(error) => return Err(error),
        };
        let (kind, after_kind) = match MessageKind::read_from(bytes, after_sender) {
            Ok(read) => read,
            Err(error) => return Err(error),
        };
        let (contents, after_contents) = match String::read_from(bytes, after_kind) {
            Ok(read) => read,
            Err(error) => return Err(error),
        };
        Ok((MessageReceived { sender, kind, contents }, after_contents))
    }
}

impl From<PacketWithConnId<SendMessage>> for MessageReceived {
    fn from(value: PacketWithConnId<SendMessage>) -> (received: Self) {
        MessageReceived {
            sender: value.connection_id,
            kind: value.packet.kind,
            contents: value.packet.contents,
        }
    }
}

impl vstd::std_specs::convert::FromSpecImpl<PacketWithConnId<SendMessage>> for MessageReceived {
    open spec fn obeys_from_spec() -> bool {
        true
    }

    open spec fn from_spec(value: PacketWithConnId<SendMessage>) -> Self {
        MessageReceived {
            sender: value.connection_id,
            kind: value.packet.kind,
            contents: value.packet.contents,
        }
    }
}

} // verus!
