//! The bounded queue that carries events to one peer.
//!
//! Everything in this file is believed of the `tokio` crate, not proved.

use std::sync::Arc;
use tokio::sync::mpsc::{Receiver, Sender};
use vstd::prelude::*;

use crate::message::Message;

verus! {

/// `tokio::sync::mpsc::Sender`, opaque to the verifier.
#[verifier::external_type_specification]
#[verifier::external_body]
#[verifier::reject_recursive_types(T)]
pub struct ExSender<T>(Sender<T>);

/// `tokio::sync::mpsc::Receiver`, opaque to the verifier.
#[verifier::external_type_specification]
#[verifier::external_body]
#[verifier::reject_recursive_types(T)]
pub struct ExReceiver<T>(Receiver<T>);

/// The largest capacity that a queue can be opened with.
pub open spec fn max_capacity() -> usize {
    usize::MAX / 8
}

/// `tokio::sync::mpsc::channel`: the two ends of a new bounded queue. The
/// call panics on a capacity of zero and on one above an eighth of
/// `usize::MAX`, so neither is admitted. Nothing is claimed of the ends.
#[verifier::external_body]
pub(crate) fn open_queue(capacity: usize) -> (ends: (
    Sender<Arc<Message>>,
    Receiver<Arc<Message>>,
))
    requires
        0 < capacity <= max_capacity(),
{
    tokio::sync::mpsc::channel(capacity)
}

/// `Sender::try_send`: offers the queue another reference to `message`
/// without waiting, and says whether the queue took it. It does not when the
/// queue is full or its receiving end is gone; nothing is claimed of when that
/// is.
#[verifier::external_body]
pub(crate) fn offer(outbox: &Sender<Arc<Message>>, message: &Arc<Message>) -> (accepted: bool)
{
    outbox.try_send(message.clone()).is_ok()
}

} // verus!
