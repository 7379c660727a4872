//! Message-protocol layer for a streaming exchange client.
//!
//! One shared transport multiplexes three message families that carry no
//! common discriminator: continuous channel feeds, synchronous method
//! replies, and error replies.  This crate classifies one inbound frame,
//! decodes it into a typed representation, and builds outgoing
//! subscribe/unsubscribe envelopes.  A frame is a keyed-value tree
//! ([`tree::Json`]); turning wire text into such a tree is the structured
//! value parser's job, reached through [`classify::classify_and_decode`].

pub mod channel;
pub mod classify;
pub mod envelope;
pub mod error;
pub mod laws;
pub mod method;
pub mod parse;
pub mod singleton;
pub mod subscription;
pub mod tree;

pub use channel::{ChannelMessage, MarketDataResponse, SingleResponse, SnapshotKind, UserDataMessage};
pub use classify::{classify_and_decode, decode_message, WssMessage};
pub use envelope::{LogicallyEmpty, Message};
pub use error::DecodeError;
pub use method::{ErrorResponse, MethodMessage, Pong, PongResponse, ResultResponse};
pub use singleton::flatten_vec;
pub use subscription::{SubscriptionResult, UnsubscriptionResult};
pub use tree::Json;
