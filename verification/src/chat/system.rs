//! The steps that move chat messages: from the input line to the server,
//! from the server to every client, from the queue into the log.

use crossbeam_channel::Receiver;
use vstd::prelude::*;
use crate::chat::entity::{Chat, ChatInput, MessageKind};
use crate::chat::packet::{MessageReceived, SendMessage};
use crate::network::mediator::PacketWithConnId;
use crate::network::plugin::{Network, Server};
use crate::network::server::NetworkServer;

verus! {

/// Appends the messages that are pending on `new_messages` to the log, at
/// most `usize::MAX` of them. Whatever they are, the lines that the log had
/// stay, in their places.
pub fn add_messages_to_chats(new_messages: &Receiver<MessageReceived>, chat: &mut Chat)
    ensures
        final(chat).messages@.len() >= old(chat).messages@.len(),
        final(chat).messages@.take(old(chat).messages@.len() as int) == old(chat).messages@,
{
    let mut budget: usize = usize::MAX;
    assert(chat.messages@.take(chat.messages@.len() as int) =~= chat.messages@);
    while budget > 0
        invariant
            chat.messages@.len() >= old(chat).messages@.len(),
            chat.messages@.take(old(chat).messages@.len() as int) == old(chat).messages@,
        decreases budget,
    {
        let message = match new_messages.try_recv() {
            Ok(message) => message,
            Err(_) => break,
        };
        let ghost before = chat.messages@;
        chat.push(message);
        assert(chat.messages@.take(old(chat).messages@.len() as int) =~= before.take(
            old(chat).messages@.len() as int,
        )) by {
            assert(chat.messages@.drop_last() == before);
        }
        budget = budget - 1;
    }
}

/// Hands the shouts that are pending on `sent_messages` on to every client,
/// at most `usize::MAX` of them, each under the id of the connection that it
/// came from.
pub fn broadcast_shouts_to_all_clients(
    sent_messages: &Receiver<PacketWithConnId<SendMessage>>,
    network: &NetworkServer,
)
    requires
        network.wf(),
{
    let mut budget: usize = usize::MAX;
    while budget > 0
        invariant
            network.wf(),
        decreases budget,
    {
        let sent_message = match sent_messages.try_recv() {
            Ok(message) => message,
            Err(_) => break,
        };
        let clients = network.clients();
        let _ = network.broadcast(MessageReceived::from(sent_message), clients.as_slice());
        budget = budget - 1;
    }
}

/// The packet that carries an input line: a shout with the line as its text.
pub fn shout(contents: String) -> (message: SendMessage)
    ensures
        message.kind == MessageKind::Shout,
        message.contents@ == contents@,
{
    SendMessage { kind: MessageKind::Shout, contents }
}

/// Sends the input line to the server as a shout, and clears the line,
/// whether or not the link took the message.
pub fn send_message(chat: &mut ChatInput, network: &Network<Server>)
    ensures
        final(chat).input@ == Seq::<char>::empty(),
{
    let mut contents = String::new();
    core::mem::swap(&mut chat.input, &mut contents);
    let _ = network.send(shout(contents));
}

} // verus!
