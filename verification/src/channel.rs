//! The two ends that the writer actor holds of its channels: the queue on
//! which requests arrive, and the single-use channel that carries one reply.
//!
//! The channels are tokio's. What they do depends on other threads, so the
//! contracts here say little; what the actor makes of an outcome is decided
//! in `actor`, by functions that take the outcome as an argument.

use vstd::prelude::*;

verus! {

/// `tokio::sync::mpsc::UnboundedReceiver`, the receiving end of the request
/// queue. Verus sees nothing inside.
#[verifier::external_type_specification]
#[verifier::external_body]
#[verifier::reject_recursive_types(T)]
pub struct ExUnboundedReceiver<T>(tokio::sync::mpsc::UnboundedReceiver<T>);

/// `tokio::sync::oneshot::Sender`, the sending end of a reply channel.
/// Verus sees nothing inside.
#[verifier::external_type_specification]
#[verifier::external_body]
#[verifier::reject_recursive_types(T)]
pub struct ExOneshotSender<T>(tokio::sync::oneshot::Sender<T>);

/// `UnboundedReceiver::blocking_recv` waits for the next message and hands
/// it out, or `None` once every sender is gone and the queue is empty.
/// Which of them comes, and when, is decided by the other threads: nothing
/// is claimed of the result. tokio lets the call panic on a thread that is
/// driving one of its runtimes; this crate builds tokio without a runtime.
pub assume_specification<T>[ tokio::sync::mpsc::UnboundedReceiver::<T>::blocking_recv ](
    rx: &mut tokio::sync::mpsc::UnboundedReceiver<T>,
) -> (received: Option<T>)
;

/// `oneshot::Sender::send` never waits. It fails where the receiver is
/// already gone, and then hands the value back unchanged.
pub assume_specification<T>[ tokio::sync::oneshot::Sender::<T>::send ](
    tx: tokio::sync::oneshot::Sender<T>,
    t: T,
) -> (sent: Result<(), T>)
    ensures
        sent matches Err(back) ==> back == t,
;

/// The receiving end of the request queue.
pub type ReqRx<T> = tokio::sync::mpsc::UnboundedReceiver<T>;

/// The sending end of a reply channel.
pub type OneTx<T> = tokio::sync::oneshot::Sender<T>;

/// Waits for the next message of the queue, blocking the calling thread:
/// `None` means that every sender is gone and nothing is left. The outcome
/// is the other threads' doing.
pub fn recv_req<T: Send>(rx: &mut ReqRx<T>) -> (received: Option<T>) {
    rx.blocking_recv()
}

/// Sends the one reply of a request. Where the asker is gone the reply
/// comes back as the error, unchanged.
pub fn send_res<T: Send>(tx: OneTx<T>, v: T) -> (sent: Result<(), T>)
    ensures
        sent matches Err(back) ==> back == v,
{
    tx.send(v)
}

} // verus!
