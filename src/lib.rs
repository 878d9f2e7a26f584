//! Protocol core of a Redis-backed simple message queue (RSMQ keyspace).
//!
//! The library decides; a transport outside it talks to Redis. Every
//! operation is split into a validated plan (keys, scores, ids and the
//! values to write) and a decision on the replies that came back.
pub mod error;
pub mod keys;
pub mod validate;
pub mod ids;
pub mod types;
pub mod queue;
pub mod message;
pub mod scripts;
pub mod model;
pub mod laws;
pub mod options;

pub use error::{InvalidArg, RsmqError, RsmqResult};
pub use options::{QueueKeys, RsmqOptions};
pub use types::{AttributeUpdate, QueueConfig, RawMessage, ReplyValue, RsmqQueueAttributes, SendPlan};
