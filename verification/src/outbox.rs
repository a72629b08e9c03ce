//! Outboxes: the sending halves of the bounded queues that carry messages to
//! a producer or a consumer connection.
//!
//! An outbox is a `tokio::sync::mpsc::Sender`. To the verifier its value is the
//! identity of the queue it feeds, nothing more: what the queue holds changes
//! behind the handle, as receivers drain it and other handles fill it.

use tokio::sync::mpsc::error::TrySendError;
use tokio::sync::mpsc::Sender;
use vstd::prelude::*;

verus! {

/// How many messages the outbox toward a producer holds.
pub const PRODUCER_OUTBOX_CAPACITY: usize = 32;

/// How many messages the outbox toward a consumer holds.
pub const CONSUMER_OUTBOX_CAPACITY: usize = 64;

/// `tokio::sync::mpsc::Sender`, the sending half of a bounded channel.
#[verifier::external_type_specification]
#[verifier::external_body]
#[verifier::reject_recursive_types(T)]
pub struct ExSender<T>(Sender<T>);

/// `<Sender<T> as Clone>::clone`. The copy feeds the channel of the handle it
/// was made from (tokio clones the reference-counted pointer to it), so it is
/// the same outbox.
pub assume_specification<T>[ <Sender<T> as Clone>::clone ](outbox: &Sender<T>) -> (copy: Sender<T>)
    ensures
        copy == *outbox,
;

/// `Sender::same_channel`. tokio compares the two handles' channel pointers;
/// two outboxes are the same value exactly when they feed the same queue.
pub assume_specification<T>[ Sender::<T>::same_channel ](outbox: &Sender<T>, other: &Sender<T>) -> (same:
    bool)
    ensures
        same == (*outbox == *other),
;

/// What became of one attempt to enqueue a message.
#[derive(Debug, Clone, Copy, PartialEq, Eq, Structural)]
pub enum SendOutcome {
    /// The queue took the message.
    Delivered,
    /// The queue was at capacity; the message is lost.
    Full,
    /// The receiving half is gone; the message is lost.
    Closed,
}

/// `Sender::try_send`: one non-blocking attempt to enqueue `message`. Whether
/// the queue has room, or still has a receiver, is not in the outbox's value,
/// so nothing is claimed of the outcome.
#[verifier::external_body]
pub(crate) fn try_enqueue<T>(outbox: &Sender<T>, message: T) -> SendOutcome {
    match outbox.try_send(message) {
        Ok(()) => SendOutcome::Delivered,
        Err(TrySendError::Full(_)) => SendOutcome::Full,
        Err(TrySendError::Closed(_)) => SendOutcome::Closed,
    }
}

} // verus!
