use vstd::prelude::*;

use crate::error::{RecvError, SendError, TryRecvError};
use crate::state::ChannelState;
use std::sync::{Condvar, Mutex, MutexGuard, PoisonError};

verus! {

/// `std::sync::Mutex`, carried through opaque.
#[verifier::external_type_specification]
#[verifier::external_body]
#[verifier::reject_recursive_types(T)]
pub struct ExMutex<T: ?Sized>(Mutex<T>);

/// `std::sync::MutexGuard`, carried through opaque.
#[verifier::external_type_specification]
#[verifier::external_body]
#[verifier::reject_recursive_types(T)]
pub struct ExMutexGuard<'a, T: ?Sized + 'a>(MutexGuard<'a, T>);

/// `std::sync::Condvar`, carried through opaque.
#[verifier::external_type_specification]
#[verifier::external_body]
pub struct ExCondvar(Condvar);

/// Relies on `Mutex::new`, which only wraps the value.
pub assume_specification<T>[ Mutex::<T>::new ](t: T) -> Mutex<T>;

/// Relies on `Condvar::new`.
pub assume_specification[ Condvar::new ]() -> Condvar;

/// What every handle of one channel shares: the state and the condition
/// variable paired with its lock.
///
/// A guard of the lock exists only inside this module. Each method of
/// `Inner` takes the lock once, on entry, while it holds no guard, calls
/// no other method of `Inner`, and releases the lock before it returns.
/// So no thread ever asks for the lock while holding it, and a guard is
/// only ever handed to a wait together with the `Inner` it locks.
#[verifier::reject_recursive_types(T)]
pub(crate) struct Inner<T> {
    state: Mutex<ChannelState<T>>,
    available: Condvar,
}

/// Relies on `Mutex::lock`, which blocks until the lock is held; it
/// returns whenever the calling thread does not hold the lock already,
/// which the discipline of `Inner` rules out. A lock poisoned by a
/// panicking holder is taken over as it stands: every update of the state
/// is one call of a verified method, which does not panic, so the state
/// in it is whole.
#[verifier::external_body]
fn lock_state<T>(inner: &Inner<T>) -> MutexGuard<'_, ChannelState<T>>
    opens_invariants none
    no_unwind
{
    inner.state.lock().unwrap_or_else(PoisonError::into_inner)
}

/// Relies on `Condvar::wait_while`, with `inner`'s condition variable and
/// a guard of `inner`'s lock: the one guard of this module, which `recv`
/// takes from `lock_state(self)` and hands back here with `self`, so one
/// condition variable only ever waits with one mutex. The wait releases
/// the lock while it blocks and returns with the lock held once
/// `would_block` is false, checking it again after every wakeup, spurious
/// ones included.
#[verifier::external_body]
fn wait_until_ready<'a, T>(
    inner: &'a Inner<T>,
    g: MutexGuard<'a, ChannelState<T>>,
) -> MutexGuard<'a, ChannelState<T>> {
    inner.available.wait_while(g, |s| s.would_block()).unwrap_or_else(PoisonError::into_inner)
}

/// Relies on `MutexGuard`'s `DerefMut`: the state behind a held lock.
#[verifier::external_body]
fn state_mut<'a, 'b, T>(g: &'a mut MutexGuard<'b, ChannelState<T>>) -> &'a mut ChannelState<T>
    opens_invariants none
    no_unwind
{
    &mut **g
}

/// Relies on `Condvar::notify_one`: wakes at most one waiting thread.
#[verifier::external_body]
fn wake_one(c: &Condvar)
    opens_invariants none
    no_unwind
{
    c.notify_one()
}

/// Relies on `Condvar::notify_all`: wakes every waiting thread.
#[verifier::external_body]
fn wake_all(c: &Condvar)
    opens_invariants none
    no_unwind
{
    c.notify_all()
}

impl<T> Inner<T> {
    /// The shared part of a new channel, with the state of
    /// `ChannelState::new`.
    pub(crate) fn new() -> Self {
        Inner { state: Mutex::new(ChannelState::new()), available: Condvar::new() }
    }

    /// `ChannelState::send` under the lock; on success one waiting
    /// receiver is woken, after the lock is released.
    pub(crate) fn send(&self, t: T) -> (r: Result<(), SendError<T>>)
        ensures
            r matches Err(e) ==> e.value() == t,
    {
        let r = {
            let mut g = lock_state(self);
            state_mut(&mut g).send(t)
        };
        if r.is_ok() {
            wake_one(&self.available);
        }
        r
    }

    /// Waits until a receive need not wait, then `ChannelState::recv_ready`
    /// under the lock.
    pub(crate) fn recv(&self) -> Result<T, RecvError> {
        let g = lock_state(self);
        let mut g = wait_until_ready(self, g);
        state_mut(&mut g).recv_ready()
    }

    /// `ChannelState::try_recv` under the lock.
    pub(crate) fn try_recv(&self) -> Result<T, TryRecvError> {
        let mut g = lock_state(self);
        state_mut(&mut g).try_recv()
    }

    /// `ChannelState::add_sender` under the lock.
    pub(crate) fn add_sender(&self) {
        let mut g = lock_state(self);
        state_mut(&mut g).add_sender();
    }

    /// `ChannelState::remove_sender` under the lock; when that closes the
    /// channel, every waiting receiver is woken, after the lock is released.
    pub(crate) fn remove_sender(&self)
        opens_invariants none
        no_unwind
    {
        let closed = {
            let mut g = lock_state(self);
            state_mut(&mut g).remove_sender()
        };
        if closed {
            wake_all(&self.available);
        }
    }

    /// `ChannelState::add_receiver` under the lock.
    pub(crate) fn add_receiver(&self) {
        let mut g = lock_state(self);
        state_mut(&mut g).add_receiver();
    }

    /// `ChannelState::remove_receiver` under the lock.
    pub(crate) fn remove_receiver(&self)
        opens_invariants none
        no_unwind
    {
        let mut g = lock_state(self);
        state_mut(&mut g).remove_receiver();
    }
}

} // verus!
