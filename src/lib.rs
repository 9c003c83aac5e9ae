//! A multi-producer, multi-consumer channel over one lock and one
//! condition variable.
//!
//! `state` holds the decisions every operation makes under the lock, as a
//! state machine with exact contracts over `ChannelModel`; `laws` proves
//! what runs of that machine guarantee; `shared` runs each step under the
//! one lock and wakes receivers through the condition variable paired with
//! it; `handles` gives `Sender` and `Receiver` their share of that state.

pub mod error;
pub mod handles;
pub mod laws;
mod shared;
pub mod state;

pub use crate::error::{RecvError, SendError, TryRecvError};
pub use crate::handles::{channel, Receiver, Sender};
pub use crate::state::ChannelState;
