//! Values handed between the library and the transport.
use vstd::prelude::*;

verus! {

/// The three settings of a queue.
#[derive(Debug, Clone, Copy, PartialEq, Eq)]
pub struct QueueConfig {
    /// Default visibility timeout, seconds.
    pub vt: u64,
    /// Default delay of new messages, seconds.
    pub delay: u64,
    /// Largest payload in bytes, or -1 for no limit.
    pub maxsize: i64,
}

/// Attributes of a queue as `get_queue_attributes` reports them.
#[derive(Debug, Clone, Copy, PartialEq, Eq)]
pub struct RsmqQueueAttributes {
    pub vt: u64,
    pub delay: u64,
    pub maxsize: i64,
    pub totalrecv: u64,
    pub totalsent: u64,
    pub created: u64,
    pub modified: u64,
    /// Messages in the queue.
    pub msgs: u64,
    /// Messages in the queue that are not visible now.
    pub hiddenmsgs: u64,
}

/// The attributes that `set_queue_attributes` writes; `None` leaves one as it is.
#[derive(Debug, Clone, Copy, PartialEq, Eq)]
pub struct AttributeUpdate {
    pub vt: Option<u64>,
    pub delay: Option<u64>,
    pub maxsize: Option<i64>,
}

/// A message as the receive and pop scripts hand it out, payload undecoded.
#[derive(Debug, Clone, PartialEq, Eq)]
pub struct RawMessage {
    pub id: String,
    pub message: Vec<u8>,
    /// Times the message was received, this time included.
    pub rc: u64,
    /// First time it was received, milliseconds.
    pub fr: u64,
    /// Time it was sent, milliseconds, read from its id.
    pub sent: u64,
}

/// One element of a script's reply.
#[derive(Debug, Clone, PartialEq, Eq)]
pub enum ReplyValue {
    Nil,
    Int(i64),
    Data(Vec<u8>),
}

/// What `send_message` writes: the new id and the time it becomes visible.
#[derive(Debug, Clone, PartialEq, Eq)]
pub struct SendPlan {
    pub id: String,
    pub visible_at: u64,
}

} // verus!
