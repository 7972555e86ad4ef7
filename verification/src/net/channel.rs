//! The queue through which a connection task takes its messages.
use futures::channel::mpsc::{TrySendError, UnboundedSender};
use vstd::prelude::*;

verus! {

/// `futures::channel::mpsc::UnboundedSender`: the sending half of a queue without a
/// bound. Nothing is said of what the queue holds.
#[verifier::external_type_specification]
#[verifier::external_body]
#[verifier::reject_recursive_types(T)]
pub struct ExUnboundedSender<T>(futures::channel::mpsc::UnboundedSender<T>);

/// `futures::channel::mpsc::TrySendError`: why a message was not queued, and the message.
#[verifier::external_type_specification]
#[verifier::external_body]
#[verifier::reject_recursive_types(T)]
pub struct ExTrySendError<T>(futures::channel::mpsc::TrySendError<T>);

/// `UnboundedSender::unbounded_send` queues a message. Whether it does depends on whether
/// the receiving half is still open, which is left unsaid. The call gives up on a queue of
/// more messages than half of what a `usize` counts, which no memory holds.
pub assume_specification<T>[ UnboundedSender::<T>::unbounded_send ](
    tx: &UnboundedSender<T>,
    msg: T,
) -> (r: Result<(), TrySendError<T>>);

/// Whether `unbounded_send` was called with `message`, and queued it, by `queued`, or not.
pub open spec fn sent<T>(tx: UnboundedSender<T>, message: T, queued: bool) -> bool {
    exists|r: Result<(), TrySendError<T>>| #[trigger]
        call_ensures(UnboundedSender::<T>::unbounded_send, (&tx, message), r) && (r is Ok
            == queued)
}

/// Queues `message`. Returns whether it was queued.
pub fn send<T>(tx: &UnboundedSender<T>, message: T) -> (r: bool)
    ensures
        sent(*tx, message, r),
{
    was_queued(&call_with(UnboundedSender::<T>::unbounded_send, tx, message))
}

/// Whether a message was queued, by what sending it returned.
pub fn was_queued<E>(outcome: &Result<(), E>) -> (r: bool)
    ensures
        r == (*outcome is Ok),
{
    match outcome {
        Ok(_) => true,
        Err(_) => false,
    }
}

/// Makes the call, and keeps record of it.
fn call_with<T, F>(f: F, tx: &UnboundedSender<T>, message: T) -> (r: Result<(), TrySendError<T>>)
    where F: FnOnce(&UnboundedSender<T>, T) -> Result<(), TrySendError<T>>
    requires
        call_requires(f, (tx, message)),
    ensures
        call_ensures(f, (tx, message), r),
{
    f(tx, message)
}

/// Whether a message was queued is what the call that was handed it came to.
pub proof fn a_sent_message_was_handed_over<T>(tx: UnboundedSender<T>, message: T, queued: bool)
    requires
        sent(tx, message, queued),
    ensures
        queued ==> call_ensures(
            UnboundedSender::<T>::unbounded_send,
            (&tx, message),
            Ok::<(), TrySendError<T>>(()),
        ),
        !queued ==> exists|error: TrySendError<T>| #[trigger]
            call_ensures(
                UnboundedSender::<T>::unbounded_send,
                (&tx, message),
                Err::<(), TrySendError<T>>(error),
            ),
{
    let r = choose|r: Result<(), TrySendError<T>>| #[trigger]
        call_ensures(UnboundedSender::<T>::unbounded_send, (&tx, message), r) && (r is Ok
            == queued);
    match r {
        Ok(unit) => {
            assert(unit == ());
        },
        Err(error) => {
            assert(call_ensures(
                UnboundedSender::<T>::unbounded_send,
                (&tx, message),
                Err::<(), TrySendError<T>>(error),
            ));
        },
    }
}

} // verus!
