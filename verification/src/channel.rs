//! The queues that carry values between the transport and its users.
//!
//! The queues are those of the channel crates. Nothing is proved of them:
//! whether a value is accepted depends on whether the other end is still
//! there, which only the call can tell.

use vstd::prelude::*;
use crate::network::error::{Error, Result};

verus! {

/// What a queue's answer means to the sender: a message that was handed back
/// is reported as a closed channel.
pub fn queue_outcome<E>(sent: core::result::Result<(), E>) -> (outcome: Result<()>)
    ensures
        sent is Ok ==> outcome is Ok,
        sent is Err ==> outcome == Err::<(), Error>(Error::ChannelClosed),
{
    match sent {
        Ok(()) => Ok(()),
        Err(_) => Err(Error::ChannelClosed),
    }
}

/// The sending half of a crossbeam channel.
#[verifier::external_type_specification]
#[verifier::external_body]
#[verifier::reject_recursive_types(T)]
pub struct ExCrossbeamSender<T>(crossbeam_channel::Sender<T>);

/// The value that a crossbeam channel without receivers hands back.
#[verifier::external_type_specification]
#[verifier::external_body]
#[verifier::reject_recursive_types(T)]
pub struct ExCrossbeamSendError<T>(crossbeam_channel::SendError<T>);

/// `crossbeam_channel::Sender::send` puts the message on the channel, or
/// hands it back when every receiver is gone. Which of the two happens is
/// not stated.
pub assume_specification<T>[ crossbeam_channel::Sender::<T>::send ](
    sender: &crossbeam_channel::Sender<T>,
    msg: T,
) -> (sent: core::result::Result<(), crossbeam_channel::SendError<T>>)
;


/// `crossbeam_channel::unbounded` makes a channel that holds any number of
/// messages, and returns its two halves.
pub assume_specification<T>[ crossbeam_channel::unbounded::<T> ]() -> (halves: (
    crossbeam_channel::Sender<T>,
    crossbeam_channel::Receiver<T>,
))
;

/// The receiving half of a crossbeam channel.
#[verifier::external_type_specification]
#[verifier::external_body]
#[verifier::reject_recursive_types(T)]
pub struct ExCrossbeamReceiver<T>(crossbeam_channel::Receiver<T>);

/// Why a crossbeam channel yielded nothing: it is empty, or it is empty and
/// every sender is gone.
#[verifier::external_type_specification]
#[verifier::external_body]
pub struct ExCrossbeamTryRecvError(crossbeam_channel::TryRecvError);

/// `crossbeam_channel::Receiver::try_recv` takes the oldest message off the
/// channel without waiting, or says that there is none. Which of the two
/// happens is not stated.
pub assume_specification<T>[ crossbeam_channel::Receiver::<T>::try_recv ](
    receiver: &crossbeam_channel::Receiver<T>,
) -> (received: core::result::Result<T, crossbeam_channel::TryRecvError>)
;

/// The sending half of an async-std channel.
#[verifier::external_type_specification]
#[verifier::external_body]
#[verifier::reject_recursive_types(T)]
pub struct ExAsyncSender<T>(async_std::channel::Sender<T>);

/// The value that a closed async-std channel hands back.
#[verifier::external_type_specification]
#[verifier::external_body]
#[verifier::reject_recursive_types(T)]
pub struct ExAsyncSendError<T>(async_std::channel::SendError<T>);

/// `async_std::channel::Sender::send_blocking` puts the message on the
/// channel, waiting for room where the channel is bounded and full, or hands
/// it back when the channel is closed. Which of the two happens is not
/// stated.
pub assume_specification<T>[ async_std::channel::Sender::<T>::send_blocking ](
    sender: &async_std::channel::Sender<T>,
    msg: T,
) -> (sent: core::result::Result<(), async_std::channel::SendError<T>>)
;

/// The sending half of an unbounded tokio channel.
#[verifier::external_type_specification]
#[verifier::external_body]
#[verifier::reject_recursive_types(T)]
pub struct ExTokioUnboundedSender<T>(tokio::sync::mpsc::UnboundedSender<T>);

/// The value that a tokio channel without receiver hands back.
#[verifier::external_type_specification]
#[verifier::external_body]
#[verifier::reject_recursive_types(T)]
pub struct ExTokioSendError<T>(tokio::sync::mpsc::error::SendError<T>);

/// `tokio::sync::mpsc::UnboundedSender::send` puts the message on the
/// channel without waiting, or hands it back when the receiving half is
/// closed or gone. Which of the two happens is not stated.
pub assume_specification<T>[ tokio::sync::mpsc::UnboundedSender::<T>::send ](
    sender: &tokio::sync::mpsc::UnboundedSender<T>,
    message: T,
) -> (sent: core::result::Result<(), tokio::sync::mpsc::error::SendError<T>>)
;

} // verus!
