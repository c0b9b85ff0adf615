//! A single-topic publish/subscribe channel.
//!
//! One owner publishes text posts, registered subscribers receive one
//! notification per post, and anyone can query the channel's metadata and its
//! recent history. The channel is an explicitly owned state value: the host
//! initializes it once with [`init`], hands each decoded command to
//! [`handle`] together with the sender's identity, and delivers the reply and
//! the notifications that come back.
//!
//! Before initialization the metadata queries answer with placeholders (an
//! empty name and description, the zero identity as owner) rather than fail.
pub mod channel;
pub mod dispatch;
pub mod identity;
pub mod message_log;
pub mod registry;

pub use channel::{Channel, ChannelError, Notification};
pub use dispatch::{dispatch, handle, init, meta_state, Action, Meta, Reply, Response};
pub use identity::Identity;
pub use message_log::{MessageLog, Post, DEFAULT_CAPACITY};
pub use registry::SubscriberRegistry;
