use vstd::prelude::*;

use crate::error::{RecvError, SendError, TryRecvError};
use crate::shared::Inner;
use std::sync::Arc;

verus! {

/// Relies on `Arc::clone`: one more owner of the same allocation.
#[verifier::external_body]
fn share<T>(a: &Arc<Inner<T>>) -> (r: Arc<Inner<T>>)
    ensures
        r == *a,
{
    Arc::clone(a)
}

/// The sending half of a channel. Cloning it adds a sender; the channel
/// closes when the last one is dropped.
#[verifier::reject_recursive_types(T)]
pub struct Sender<T> {
    inner: Arc<Inner<T>>,
}

/// The receiving half of a channel. Cloning it adds a receiver; sends
/// fail once the last one is dropped.
#[verifier::reject_recursive_types(T)]
pub struct Receiver<T> {
    inner: Arc<Inner<T>>,
}

impl<T> Sender<T> {
    /// This sender and `rx` are handles on one and the same channel.
    pub closed spec fn same_channel(&self, rx: &Receiver<T>) -> bool {
        self.inner == rx.inner
    }

    /// Queues `t` at the back, and wakes one waiting receiver, while a
    /// receiver is live. Otherwise `t` comes back in the error.
    pub fn sender(&mut self, t: T) -> (r: Result<(), SendError<T>>)
        ensures
            *final(self) == *old(self),
            r matches Err(e) ==> e.value() == t,
    {
        self.inner.send(t)
    }
}

/// Makes a channel with an empty queue, one sender and one receiver, both
/// handles on the one shared state.
pub fn channel<T>() -> (r: (Sender<T>, Receiver<T>))
    ensures
        r.0.same_channel(&r.1),
{
    let inner = Arc::new(Inner::new());
    let tx = Sender { inner: share(&inner) };
    let rx = Receiver { inner };
    (tx, rx)
}

impl<T> Clone for Sender<T> {
    /// Counts one more sender and returns a handle on the same channel.
    fn clone(&self) -> (r: Self)
        ensures
            r == *self,
    {
        self.inner.add_sender();
        Sender { inner: share(&self.inner) }
    }
}

impl<T> Drop for Sender<T> {
    fn drop(&mut self)
        opens_invariants none
        no_unwind
    {
        self.inner.remove_sender();
    }
}

impl<T> Receiver<T> {
    /// Waits until a value is queued or no sender is left. Returns the
    /// front value, or `Disconnected` when the queue is empty and closed.
    pub fn recv(&mut self) -> (r: Result<T, RecvError>)
        ensures
            *final(self) == *old(self),
    {
        self.inner.recv()
    }

    /// Takes the front value without waiting: `Empty` while the queue is
    /// empty and a sender is live, `Disconnected` once none is.
    pub fn try_recv(&mut self) -> (r: Result<T, TryRecvError>)
        ensures
            *final(self) == *old(self),
    {
        self.inner.try_recv()
    }
}

impl<T> Clone for Receiver<T> {
    /// Counts one more receiver and returns a handle on the same channel.
    fn clone(&self) -> (r: Self)
        ensures
            r == *self,
    {
        self.inner.add_receiver();
        Receiver { inner: share(&self.inner) }
    }
}

impl<T> Drop for Receiver<T> {
    fn drop(&mut self)
        opens_invariants none
        no_unwind
    {
        self.inner.remove_receiver();
    }
}

} // verus!
