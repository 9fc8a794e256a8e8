//! The unbounded multi-producer channel used to queue widget messages, and
//! the cancellation scope shared by a widget's asynchronous tasks.

use crossbeam_channel::Receiver as QueueRx;
use crossbeam_channel::Sender as QueueTx;
use tokio_util::sync::CancellationToken;
use vstd::prelude::*;

verus! {

#[verifier::external_type_specification]
#[verifier::external_body]
#[verifier::reject_recursive_types(T)]
pub struct ExQueueSender<T>(QueueTx<T>);

#[verifier::external_type_specification]
#[verifier::external_body]
#[verifier::reject_recursive_types(T)]
pub struct ExQueueReceiver<T>(QueueRx<T>);

#[verifier::external_type_specification]
#[verifier::external_body]
pub struct ExCancellationToken(CancellationToken);

/// Creates an unbounded channel (`crossbeam_channel::unbounded`).
///
/// Nothing is claimed of the pair: what the receiver yields depends on every
/// sender, in any thread, that holds the other end.
#[verifier::external_body]
pub(crate) fn unbounded_queue<T>() -> (QueueTx<T>, QueueRx<T>) {
    crossbeam_channel::unbounded()
}

/// Sends a value over a channel (`crossbeam_channel::Sender::send`).
///
/// Returns whether the channel was still connected; the value is dropped
/// when it was not.
#[verifier::external_body]
pub(crate) fn queue_send<T>(tx: &QueueTx<T>, value: T) -> bool {
    tx.send(value).is_ok()
}

/// Takes the next queued value without blocking
/// (`crossbeam_channel::Receiver::try_recv`), or `None` when the channel is
/// empty or disconnected.
///
/// Nothing is claimed of which value comes back: other threads may be sending
/// concurrently.
#[verifier::external_body]
pub(crate) fn queue_try_recv<T>(rx: &QueueRx<T>) -> Option<T> {
    rx.try_recv().ok()
}

/// Clones the sending end of a channel (`<crossbeam_channel::Sender as Clone>::clone`).
///
/// Claims that the clone is the same handle: it refers to the same channel
/// (the source counts one more sender and copies the channel pointer).
#[verifier::external_body]
pub(crate) fn queue_sender_clone<T>(tx: &QueueTx<T>) -> (r: QueueTx<T>)
    ensures
        r == *tx,
{
    tx.clone()
}

/// Clones the receiving end of a channel (`<crossbeam_channel::Receiver as Clone>::clone`).
///
/// Claims that the clone is the same handle: it refers to the same channel
/// (the source counts one more receiver and copies the channel pointer).
#[verifier::external_body]
pub(crate) fn queue_receiver_clone<T>(rx: &QueueRx<T>) -> (r: QueueRx<T>)
    ensures
        r == *rx,
{
    rx.clone()
}

/// Creates a fresh, uncancelled token (`CancellationToken::new`).
#[verifier::external_body]
pub(crate) fn token_new() -> CancellationToken {
    CancellationToken::new()
}

/// Cancels a token and every child token derived from it
/// (`CancellationToken::cancel`).
#[verifier::external_body]
pub(crate) fn token_cancel(token: &CancellationToken)
    opens_invariants none
    no_unwind
{
    token.cancel()
}

/// Clones a token; the clone shares the cancellation state
/// (`<CancellationToken as Clone>::clone`).
///
/// Claims that the clone is the same token: the source copies the pointer
/// to the shared node, so cancelling either cancels both.
#[verifier::external_body]
pub(crate) fn token_clone(token: &CancellationToken) -> (r: CancellationToken)
    ensures
        r == *token,
{
    token.clone()
}

} // verus!
