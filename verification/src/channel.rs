//! The parts of tokio's unbounded channels that the handle uses.
//!
//! A channel's state is shared between its two halves and changes under the
//! library's feet (the other half may be dropped or closed at any time), so
//! nothing here names it: what a send or a query returns is left free, and
//! the functions that use these calls state what holds whatever came back.

use crate::manager::WsCommand;
use tokio::sync::mpsc::error::SendError;
use tokio::sync::mpsc::{UnboundedReceiver, UnboundedSender};
use vstd::prelude::*;

verus! {

/// tokio's sending half of an unbounded channel; opaque to Verus.
#[verifier::external_type_specification]
#[verifier::external_body]
#[verifier::reject_recursive_types(T)]
pub struct ExUnboundedSender<T>(UnboundedSender<T>);

/// tokio's receiving half of an unbounded channel; opaque to Verus.
#[verifier::external_type_specification]
#[verifier::external_body]
#[verifier::reject_recursive_types(T)]
pub struct ExUnboundedReceiver<T>(UnboundedReceiver<T>);

/// tokio's error for a send on a channel whose receiver is gone; opaque to
/// Verus.
#[verifier::external_type_specification]
#[verifier::external_body]
#[verifier::reject_recursive_types(T)]
pub struct ExSendError<T>(SendError<T>);

/// `tokio::sync::mpsc::unbounded_channel`: makes a fresh channel and returns
/// its two halves. Nothing is claimed of them beyond their types.
pub assume_specification<T>[ tokio::sync::mpsc::unbounded_channel::<T> ]() -> (UnboundedSender<
    T,
>, UnboundedReceiver<T>);

/// `UnboundedSender::send`: queues the message, or returns it inside a
/// `SendError` when the receiving half is closed. Which of the two happens
/// depends on the receiver, which may close at any time, so the result is
/// left free; that the error holds the message back is not stated either,
/// as nothing in this library reads it.
pub assume_specification<T>[ UnboundedSender::<T>::send ](
    tx: &UnboundedSender<T>,
    message: T,
) -> Result<(), SendError<T>>;

/// `UnboundedSender::is_closed`: whether the receiving half has been closed
/// or dropped. That depends on the other half, so the result is left free.
pub assume_specification<T>[ UnboundedSender::<T>::is_closed ](tx: &UnboundedSender<T>) -> bool;

/// The call `tx.send(message)` was made and ended with `outcome`.
pub open spec fn handed<T>(tx: &UnboundedSender<T>, message: T, outcome: Result<(), SendError<T>>) -> bool {
    call_ensures(UnboundedSender::<T>::send, (tx, message), outcome)
}

/// The call `tx.is_closed()` was made and answered `closed`.
pub open spec fn answered_closed<T>(tx: &UnboundedSender<T>, closed: bool) -> bool {
    call_ensures(UnboundedSender::<T>::is_closed, (tx,), closed)
}

/// The sending half of a channel, with a record of what it has handed over:
/// every message that a logged send put on the channel, in order.
#[verifier::reject_recursive_types(T)]
pub struct LoggedSender<T> {
    tx: UnboundedSender<T>,
    log: Ghost<Seq<T>>,
}

impl<T> LoggedSender<T> {
    /// The channel's sending half.
    pub closed spec fn sender(&self) -> UnboundedSender<T> {
        self.tx
    }

    /// The messages that logged sends have put on the channel, oldest first.
    pub closed spec fn accepted(&self) -> Seq<T> {
        self.log@
    }

    /// A sender on `tx` that has handed over nothing yet.
    pub fn new(tx: UnboundedSender<T>) -> (s: Self)
        ensures
            s.sender() == tx,
            s.accepted() == Seq::<T>::empty(),
    {
        LoggedSender { tx, log: Ghost(Seq::empty()) }
    }

    /// Send `message`: the channel takes it, and the record grows by it, or
    /// refuses it, and the record stays.
    pub fn send(&mut self, message: T) -> (r: Result<(), SendError<T>>)
        ensures
            final(self).sender() == old(self).sender(),
            handed(&old(self).sender(), message, r),
            final(self).accepted() == (if r is Ok {
                old(self).accepted().push(message)
            } else {
                old(self).accepted()
            }),
    {
        let ghost m = message;
        let r = self.tx.send(message);
        proof {
            if r is Ok {
                self.log@ = self.log@.push(m);
            }
        }
        r
    }

    /// Whether the channel's receiving half is closed.
    pub fn is_closed(&self) -> (closed: bool)
        ensures
            answered_closed(&self.sender(), closed),
    {
        self.tx.is_closed()
    }
}

impl LoggedSender<WsCommand> {
    /// Send a close command without touching the record, for a handle that
    /// closes through a shared reference.
    pub fn send_close(&self) -> (r: Result<(), SendError<WsCommand>>)
        ensures
            handed(&self.sender(), WsCommand::Close, r),
    {
        self.tx.send(WsCommand::Close)
    }
}

/// The text of a `SendError` through its `Display` impl, which writes
/// "channel closed" whatever the error holds.
#[verifier::external_body]
pub(crate) fn send_error_text<T>(e: &SendError<T>) -> (text: String)
    ensures
        text@ == "channel closed"@,
{
    e.to_string()
}

} // verus!
