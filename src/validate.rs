//! Argument validation, done before any command reaches the server.
use vstd::prelude::*;
use vstd::string::{StrSliceExecFns, StringExecFns};
use crate::error::{InvalidArg, RsmqError};

verus! {

/// Largest visibility timeout, in seconds.
pub const MAX_SECONDS_HIDDEN: u64 = 259200;
/// Largest delay (and largest explicit hiding time), in seconds.
pub const MAX_DELAY: u64 = 9999999;
/// Smallest bounded `maxsize`, in bytes.
pub const MIN_MAXSIZE: i64 = 1024;
/// Largest `maxsize`, in bytes.
pub const MAX_MAXSIZE: i64 = 65536;
/// `maxsize` value that disables the payload size check.
pub const UNLIMITED_MAXSIZE: i64 = -1;
/// Longest queue name.
pub const MAX_QUEUE_NAME_LEN: usize = 160;
/// Length of every message id.
pub const MESSAGE_ID_LEN: usize = 32;

pub open spec fn is_alnum(c: char) -> bool {
    ('a' <= c && c <= 'z') || ('A' <= c && c <= 'Z') || ('0' <= c && c <= '9')
}

pub open spec fn is_name_char(c: char) -> bool {
    is_alnum(c) || c == '_' || c == '-'
}

pub open spec fn is_id_char(c: char) -> bool {
    is_alnum(c) || c == ':'
}

/// `^[A-Za-z0-9_-]{1,160}$`
pub open spec fn valid_queue_name_spec(q: Seq<char>) -> bool {
    1 <= q.len() <= MAX_QUEUE_NAME_LEN && forall|i: int| 0 <= i < q.len() ==> is_name_char(#[trigger] q[i])
}

/// `^[A-Za-z0-9:]{32}$`
pub open spec fn valid_message_id_spec(id: Seq<char>) -> bool {
    id.len() == MESSAGE_ID_LEN && forall|i: int| 0 <= i < id.len() ==> is_id_char(#[trigger] id[i])
}

pub open spec fn valid_seconds_hidden(v: u64) -> bool {
    v <= MAX_SECONDS_HIDDEN
}

pub open spec fn valid_delay(v: u64) -> bool {
    v <= MAX_DELAY
}

pub open spec fn valid_maxsize(v: i64) -> bool {
    v == UNLIMITED_MAXSIZE || (MIN_MAXSIZE <= v && v <= MAX_MAXSIZE)
}

fn is_alnum_exec(c: char) -> (r: bool)
    ensures
        r == is_alnum(c),
{
    ('a' <= c && c <= 'z') || ('A' <= c && c <= 'Z') || ('0' <= c && c <= '9')
}

fn all_chars(s: &str, allow_colon: bool, allow_name_marks: bool) -> (r: bool)
    ensures
        r == forall|i: int| 0 <= i < s@.len() ==> {
            let c = #[trigger] s@[i];
            is_alnum(c) || (allow_colon && c == ':') || (allow_name_marks && (c == '_' || c == '-'))
        },
{
    let n = s.unicode_len();
    let mut i: usize = 0;
    while i < n
        invariant
            n == s@.len(),
            i <= n,
            forall|j: int| 0 <= j < i ==> {
                let c = #[trigger] s@[j];
                is_alnum(c) || (allow_colon && c == ':') || (allow_name_marks && (c == '_' || c == '-'))
            },
        decreases n - i,
    {
        let c = s.get_char(i);
        let ok = is_alnum_exec(c) || (allow_colon && c == ':') || (allow_name_marks && (c == '_'
            || c == '-'));
        if !ok {
            return false;
        }
        i = i + 1;
    }
    true
}

pub fn is_valid_queue_name(qname: &str) -> (r: bool)
    ensures
        r == valid_queue_name_spec(qname@),
{
    let n = qname.unicode_len();
    if n < 1 || n > MAX_QUEUE_NAME_LEN {
        return false;
    }
    all_chars(qname, false, true)
}

pub fn is_valid_message_id(id: &str) -> (r: bool)
    ensures
        r == valid_message_id_spec(id@),
{
    let n = id.unicode_len();
    if n != MESSAGE_ID_LEN {
        return false;
    }
    all_chars(id, true, false)
}

/// Accepts a queue name matching `^[A-Za-z0-9_-]{1,160}$`.
pub fn check_queue_name(qname: &str) -> (r: Result<(), RsmqError>)
    ensures
        r is Ok <==> valid_queue_name_spec(qname@),
        r is Err ==> (match r->Err_0 {
            RsmqError::InvalidValue(InvalidArg::QueueName(s)) => s@ == qname@,
            _ => false,
        }),
{
    if is_valid_queue_name(qname) {
        Ok(())
    } else {
        Err(RsmqError::InvalidValue(InvalidArg::QueueName(String::from_str(qname))))
    }
}

} // verus!
