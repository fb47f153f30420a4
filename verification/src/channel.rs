//! The queues and permit pools that link the caller's thread to the runtime,
//! and what is taken on trust about them. Their contents change under other
//! threads' hands, so nothing is claimed about what a call finds in them.
use vstd::prelude::*;
use tokio::sync::mpsc::error::TrySendError;
use tokio::sync::mpsc::Receiver;
use tokio::sync::mpsc::Sender;
use tokio::sync::Semaphore;
use std::sync::Arc;

verus! {

/// `tokio::sync::mpsc::Receiver`, the reading end of a bounded queue.
#[verifier::external_type_specification]
#[verifier::external_body]
#[verifier::reject_recursive_types(T)]
pub struct ExReceiver<T>(tokio::sync::mpsc::Receiver<T>);

/// `tokio::sync::mpsc::Sender`, a writing end of a bounded queue.
#[verifier::external_type_specification]
#[verifier::external_body]
#[verifier::reject_recursive_types(T)]
pub struct ExSender<T>(tokio::sync::mpsc::Sender<T>);

/// `tokio::sync::Semaphore`, a pool of permits.
#[verifier::external_type_specification]
#[verifier::external_body]
pub struct ExSemaphore(tokio::sync::Semaphore);

/// How an attempt to enqueue without waiting ended. A value that was not
/// taken comes back.
#[derive(Debug, PartialEq, Eq)]
pub enum Offer<T> {
    /// The queue took the value.
    Taken,
    /// The queue is full for now.
    Full(T),
    /// Nobody reads the queue any more.
    Closed(T),
}

/// `Receiver::try_recv`: the next value if one is waiting. An empty queue
/// and an abandoned one both give `None`.
#[verifier::external_body]
pub(crate) fn try_recv<T>(rx: &mut Receiver<T>) -> (next: Option<T>) {
    rx.try_recv().ok()
}

/// `Sender::try_send`: whether the queue took the value. On `Full` and on
/// `Closed` the value handed in is the one handed back.
#[verifier::external_body]
pub(crate) fn try_send<T>(tx: &Sender<T>, value: T) -> (offer: Offer<T>)
    ensures
        offer matches Offer::Full(back) ==> back == value,
        offer matches Offer::Closed(back) ==> back == value,
{
    match tx.try_send(value) {
        Ok(()) => Offer::Taken,
        Err(TrySendError::Full(back)) => Offer::Full(back),
        Err(TrySendError::Closed(back)) => Offer::Closed(back),
    }
}

/// `Semaphore::available_permits`: the number of permits free at the moment
/// of the call.
#[verifier::external_body]
pub(crate) fn available_permits(pool: &Arc<Semaphore>) -> (free: usize) {
    pool.available_permits()
}

} // verus!
