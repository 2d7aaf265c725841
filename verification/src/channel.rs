//! The two ends of a standard-library channel.
//!
//! What a channel holds is no part of either handle's value, so neither end
//! describes a content: contracts here say what is made of the outcome of a
//! channel operation, not what the channel holds.
//!
//! The receiving end is an endpoint as it stands. The sending end is offered
//! as [`try_push`], which reports whether the channel took the value: an
//! endpoint over it has to stop the program when the value was not taken, and
//! that stop is left to the caller.

use crate::endpoint::Pullable;
use std::sync::mpsc::{Receiver, SendError, Sender, TryRecvError};
use vstd::prelude::*;

verus! {

/// The sending half of a channel, carried through as an opaque handle.
#[verifier::external_type_specification]
#[verifier::external_body]
#[verifier::reject_recursive_types(T)]
pub struct ExSender<T>(std::sync::mpsc::Sender<T>);

/// The receiving half of a channel, carried through as an opaque handle.
#[verifier::external_type_specification]
#[verifier::external_body]
#[verifier::reject_recursive_types(T)]
pub struct ExReceiver<T>(std::sync::mpsc::Receiver<T>);

/// Why a send failed: the receiving half is gone. It carries the value that
/// was not sent; nothing here looks inside.
#[verifier::external_type_specification]
#[verifier::external_body]
#[verifier::reject_recursive_types(T)]
pub struct ExSendError<T>(std::sync::mpsc::SendError<T>);

/// Why a poll of a channel came back without a value: the channel was empty,
/// or its sending side is gone. Nothing here looks inside.
#[verifier::external_type_specification]
#[verifier::external_body]
pub struct ExTryRecvError(std::sync::mpsc::TryRecvError);

/// `Sender::send`: hands `data` to the channel. It never panics, and fails
/// only where the receiving half is gone. Whether it is depends on what the
/// other holder of the channel has done, so nothing is promised of the
/// outcome.
pub assume_specification<T>[ Sender::<T>::send ](sender: &Sender<T>, data: T) -> (sent: Result<
    (),
    SendError<T>,
>)
;

/// `Receiver::try_recv`: one attempt to take a value off the channel, which
/// never waits. Whether a value is there depends on what other holders of the
/// channel have done, so nothing is promised of the outcome.
pub assume_specification<T>[ Receiver::<T>::try_recv ](receiver: &Receiver<T>) -> (polled: Result<
    T,
    TryRecvError,
>)
;

/// Whether a send with this outcome was taken by the channel. A failed send
/// means that the value can never arrive: it is not to be retried.
pub fn delivered<T>(sent: Result<(), SendError<T>>) -> (taken: bool)
    ensures
        taken == (sent is Ok),
{
    sent.is_ok()
}

/// Sends `data` down the channel and reports what [`delivered`] makes of the
/// outcome: `false` means that the receiving half is gone and the value is
/// lost.
pub fn try_push<T>(sender: &Sender<T>, data: T) -> (taken: bool) {
    delivered(sender.send(data))
}

/// The value that a poll of a channel yields: the one received, or none where
/// the poll failed. An empty channel and a disconnected one are not told
/// apart; both are "no value".
pub fn polled_value<T>(polled: Result<T, TryRecvError>) -> (out: Option<T>)
    ensures
        out == match polled {
            Ok(value) => Some(value),
            Err(_) => None,
        },
{
    polled.ok()
}

impl<T: Send> Pullable<T> for Receiver<T> {
    /// Polls the channel once, without waiting, and yields what
    /// [`polled_value`] makes of the outcome. The handle itself is left as it
    /// was.
    fn pull(&mut self) -> (out: Option<T>)
        ensures
            *final(self) == *old(self),
    {
        polled_value(self.try_recv())
    }
}

} // verus!
