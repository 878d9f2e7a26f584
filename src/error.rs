//! Error kinds of the queue operations.
use vstd::prelude::*;

verus! {

/// The argument that was out of range, with the value given.
#[derive(Debug, Clone, PartialEq, Eq)]
pub enum InvalidArg {
    SecondsHidden(u64),
    Delay(u64),
    MaxSize(i64),
    QueueName(String),
    MessageId(String),
}

#[derive(Debug, Clone, PartialEq, Eq)]
pub enum RsmqError {
    /// No queue hash exists under that name.
    QueueNotFound,
    /// The queue already exists.
    QueueExists,
    /// Changing visibility of an id that is not in the queue.
    MessageNotFound,
    /// The payload is longer than the queue's `maxsize`.
    MessageTooLong,
    /// `set_queue_attributes` was called without any attribute.
    NoAttributeSupplied,
    /// An argument lies outside its documented range.
    InvalidValue(InvalidArg),
    /// The caller's conversion from bytes failed; holds the bytes.
    CannotDecodeMessage(Vec<u8>),
    /// A reply of the server did not have the expected shape.
    InvalidFormat(String),
    /// An error reported by the Redis transport.
    RedisError(String),
}

pub type RsmqResult<T> = Result<T, RsmqError>;

} // verus!
