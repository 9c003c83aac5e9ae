use vstd::prelude::*;

use crate::error::{RecvError, SendError, TryRecvError};
use std::collections::VecDeque;

verus! {

/// The abstract state of a channel: the queued values, front first, and
/// the number of live handles of each kind.
pub struct ChannelModel<T> {
    pub queue: Seq<T>,
    pub senders: nat,
    pub receivers: nat,
}

impl<T> ChannelModel<T> {
    /// A fresh channel: nothing queued, one sender, one receiver.
    pub open spec fn fresh() -> Self {
        ChannelModel { queue: Seq::empty(), senders: 1, receivers: 1 }
    }

    /// No sender is left, so nothing can ever be queued again.
    pub open spec fn is_closed(self) -> bool {
        self.senders == 0
    }

    /// A blocking receive has to wait: the queue is empty and a sender
    /// is still live.
    pub open spec fn would_block(self) -> bool {
        self.queue.len() == 0 && !self.is_closed()
    }

    /// The state after a send of `v`: queued at the back while a receiver
    /// is live, else nothing changes.
    pub open spec fn after_send(self, v: T) -> Self {
        if self.receivers > 0 {
            ChannelModel { queue: self.queue.push(v), ..self }
        } else {
            self
        }
    }

    /// What a send of `v` returns.
    pub open spec fn send_result(self, v: T) -> Result<(), SendError<T>> {
        if self.receivers > 0 {
            Ok(())
        } else {
            Err(SendError::Disconnected(v))
        }
    }

    /// The state after a receive: the front value leaves the queue, if
    /// there is one.
    pub open spec fn after_recv(self) -> Self {
        if self.queue.len() > 0 {
            ChannelModel { queue: self.queue.drop_first(), ..self }
        } else {
            self
        }
    }

    /// What a receive that does not wait returns.
    pub open spec fn try_recv_result(self) -> Result<T, TryRecvError> {
        if self.queue.len() > 0 {
            Ok(self.queue[0])
        } else if self.is_closed() {
            Err(TryRecvError::Disconnected)
        } else {
            Err(TryRecvError::Empty)
        }
    }

    /// What a blocking receive returns once it no longer has to wait.
    pub open spec fn recv_result(self) -> Result<T, RecvError> {
        if self.queue.len() > 0 {
            Ok(self.queue[0])
        } else {
            Err(RecvError::Disconnected)
        }
    }

    /// A sender is cloned. A closed channel stays closed: with no sender
    /// left there is none to clone.
    pub open spec fn after_add_sender(self) -> Self {
        if self.senders > 0 {
            ChannelModel { senders: self.senders + 1, ..self }
        } else {
            self
        }
    }

    /// A sender is dropped.
    pub open spec fn after_remove_sender(self) -> Self {
        if self.senders > 0 {
            ChannelModel { senders: (self.senders - 1) as nat, ..self }
        } else {
            self
        }
    }

    /// A receiver is cloned.
    pub open spec fn after_add_receiver(self) -> Self {
        ChannelModel { receivers: self.receivers + 1, ..self }
    }

    /// A receiver is dropped.
    pub open spec fn after_remove_receiver(self) -> Self {
        if self.receivers > 0 {
            ChannelModel { receivers: (self.receivers - 1) as nat, ..self }
        } else {
            self
        }
    }
}

/// The state that the lock of a channel guards: the queue and the counts
/// of live handles, kept together so that every decision sees them at once.
pub struct ChannelState<T> {
    queue: VecDeque<T>,
    senders: usize,
    receivers: usize,
}

impl<T> View for ChannelState<T> {
    type V = ChannelModel<T>;

    closed spec fn view(&self) -> ChannelModel<T> {
        ChannelModel {
            queue: self.queue@,
            senders: self.senders as nat,
            receivers: self.receivers as nat,
        }
    }
}

impl<T> ChannelState<T> {
    /// The state of a new channel.
    pub fn new() -> (r: Self)
        ensures
            r@ == ChannelModel::<T>::fresh(),
    {
        let r = ChannelState { queue: VecDeque::new(), senders: 1, receivers: 1 };
        assert(r@.queue =~= Seq::<T>::empty());
        r
    }

    /// Whether a blocking receive has to wait.
    pub fn would_block(&self) -> (r: bool)
        ensures
            r == self@.would_block(),
    {
        self.queue.len() == 0 && self.senders > 0
    }

    /// Queues `value` at the back while a receiver is live; otherwise
    /// hands it back in the error.
    pub fn send(&mut self, value: T) -> (r: Result<(), SendError<T>>)
        ensures
            final(self)@ == old(self)@.after_send(value),
            r == old(self)@.send_result(value),
    {
        if self.receivers > 0 {
            self.queue.push_back(value);
            Ok(())
        } else {
            Err(SendError::Disconnected(value))
        }
    }

    /// Takes the front value without waiting: `Empty` while a sender is
    /// live, `Disconnected` once none is.
    pub fn try_recv(&mut self) -> (r: Result<T, TryRecvError>)
        ensures
            final(self)@ == old(self)@.after_recv(),
            r == old(self)@.try_recv_result(),
    {
        match self.queue.pop_front() {
            Some(v) => Ok(v),
            None => {
                if self.senders > 0 {
                    Err(TryRecvError::Empty)
                } else {
                    Err(TryRecvError::Disconnected)
                }
            },
        }
    }

    /// The step of a blocking receive once it no longer has to wait: the
    /// front value if there is one, else the channel is closed.
    pub fn recv_ready(&mut self) -> (r: Result<T, RecvError>)
        ensures
            final(self)@ == old(self)@.after_recv(),
            r == old(self)@.recv_result(),
    {
        match self.queue.pop_front() {
            Some(v) => Ok(v),
            None => Err(RecvError::Disconnected),
        }
    }

    /// Counts a new sender. The count saturates at `usize::MAX`, which
    /// no process reaches: each sender holds a share of one allocation.
    pub fn add_sender(&mut self)
        ensures
            old(self)@.senders < usize::MAX ==> final(self)@ == old(self)@.after_add_sender(),
            old(self)@.senders == usize::MAX ==> final(self)@ == old(self)@,
    {
        if 0 < self.senders && self.senders < usize::MAX {
            self.senders = self.senders + 1;
        }
    }

    /// Counts a dropped sender. Returns whether the channel is now closed,
    /// which is when every waiting receiver must be woken.
    pub fn remove_sender(&mut self) -> (closed: bool)
        ensures
            final(self)@ == old(self)@.after_remove_sender(),
            closed == final(self)@.is_closed(),
        opens_invariants none
        no_unwind
    {
        if self.senders > 0 {
            self.senders = self.senders - 1;
        }
        self.senders == 0
    }

    /// Counts a new receiver. The count saturates at `usize::MAX`.
    pub fn add_receiver(&mut self)
        ensures
            old(self)@.receivers < usize::MAX ==> final(self)@ == old(self)@.after_add_receiver(),
            old(self)@.receivers == usize::MAX ==> final(self)@ == old(self)@,
    {
        if self.receivers < usize::MAX {
            self.receivers = self.receivers + 1;
        }
    }

    /// Counts a dropped receiver.
    pub fn remove_receiver(&mut self)
        ensures
            final(self)@ == old(self)@.after_remove_receiver(),
        opens_invariants none
        no_unwind
    {
        if self.receivers > 0 {
            self.receivers = self.receivers - 1;
        }
    }
}

} // verus!
