//! A thread-safe multi-producer, single-consumer message channel.
//!
//! Any number of cloneable [`Sender`] handles enqueue values for the one
//! [`Receiver`], which takes them in send order. The receiver blocks while
//! senders remain and no message is pending, and reports closure once the
//! last sender is gone and every message has been taken. A private buffer on
//! the receiver turns a burst of pending messages into a single lock
//! acquisition.

mod chan;
pub mod laws;
mod state;

pub use chan::Receiver;
pub use chan::Sender;
pub use chan::Shared;
pub use chan::channel;
pub use state::Inner;
pub use state::RecvStep;
pub use state::recv_outcome;
