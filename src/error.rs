use vstd::prelude::*;

verus! {

/// Why a send failed. The value that could not be sent is handed back.
#[derive(Debug, PartialEq, Eq)]
pub enum SendError<T> {
    /// No receiver is left: the value was not queued.
    Disconnected(T),
}

impl<T> SendError<T> {
    /// The value that was not sent.
    pub open spec fn value(self) -> T {
        match self {
            SendError::Disconnected(v) => v,
        }
    }

    /// Takes back the value that was not sent.
    pub fn into_inner(self) -> (r: T)
        ensures
            r == self.value(),
    {
        match self {
            SendError::Disconnected(v) => v,
        }
    }
}

/// Why a blocking receive returned without a value.
#[derive(Debug, Clone, Copy, PartialEq, Eq)]
pub enum RecvError {
    /// The queue is empty and no sender is left.
    Disconnected,
}

/// Why a non-blocking receive returned without a value.
#[derive(Debug, Clone, Copy, PartialEq, Eq)]
pub enum TryRecvError {
    /// The queue is empty but a sender is still live.
    Empty,
    /// The queue is empty and no sender is left.
    Disconnected,
}

} // verus!
