//! How results come back: each started operation is handed to a dispatcher,
//! which sends its single result through a tokio one-shot channel; the binding
//! looks at the receiving half without blocking.
use std::future::Future;
use tokio::sync::oneshot::error::{RecvError, TryRecvError};
use tokio::sync::oneshot::{Receiver, Sender};
use vstd::prelude::*;

verus! {

/// The receiving half of tokio's one-shot channel, held by a pending binding.
#[verifier::external_type_specification]
#[verifier::external_body]
#[verifier::reject_recursive_types(T)]
pub struct ExReceiver<T>(Receiver<T>);

/// The sending half of tokio's one-shot channel, handed to a dispatcher.
#[verifier::external_type_specification]
#[verifier::external_body]
#[verifier::reject_recursive_types(T)]
pub struct ExSender<T>(Sender<T>);

/// tokio's error for a receive that found the sender gone; it appears in the
/// receiver's own impls.
#[verifier::external_type_specification]
#[verifier::external_body]
pub struct ExRecvError(RecvError);

/// What a look at a one-shot receiver found.
pub enum Delivery<T> {
    /// The value that was sent.
    Ready(T),
    /// Nothing has been sent yet.
    Empty,
    /// No value will come: the sender went away without sending, or the
    /// value was already taken.
    Closed,
}

/// Relies on tokio::sync::oneshot::channel: a fresh pair of connected halves.
pub assume_specification<T>[ tokio::sync::oneshot::channel::<T> ]() -> (Sender<T>, Receiver<T>);

/// Relies on tokio::sync::oneshot::Receiver::try_recv, which never blocks: the
/// value if one was sent, `Empty` while the sender is alive and has sent
/// nothing, `Closed` once it is gone without a value or once the value has
/// already been taken.
#[verifier::external_body]
pub(crate) fn try_receive<T>(rx: &mut Receiver<T>) -> (r: Delivery<T>) {
    match rx.try_recv() {
        Ok(v) => Delivery::Ready(v),
        Err(TryRecvError::Empty) => Delivery::Empty,
        Err(TryRecvError::Closed) => Delivery::Closed,
    }
}

/// Looks at the receiver held in `recv`, if any, without blocking; a
/// receiver that is held stays held.
pub(crate) fn receive_from<T>(recv: &mut Option<Receiver<T>>) -> (r: Delivery<T>)
    ensures
        final(recv).is_some() == old(recv).is_some(),
{
    match recv {
        Some(rx) => try_receive(rx),
        None => Delivery::Empty,
    }
}

/// Starts background work whose single result is sent on a one-shot channel.
///
/// A realization runs `fut` to its end, even after the receiving half has been
/// dropped or replaced, and then sends its output on `tx`, ignoring a send that
/// finds the receiver gone. It may use worker threads or run on the loop's own
/// thread; nothing about when the work finishes is promised.
pub trait Dispatcher<R> {
    /// Starts `fut`, whose output goes to `tx`.
    fn dispatch<Fut>(&self, fut: Fut, tx: Sender<R>) where Fut: Future<Output = R> + MaybeSend + 'static;
}

/// Types that may be handed to a dispatcher: on a multi-threaded runtime,
/// those that can move between threads.
pub trait MaybeSend: Send {
}

impl<T: Send> MaybeSend for T {
}

} // verus!
