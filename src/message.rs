//! Decisions of the message operations: send, receive, pop, change of
//! visibility, delete.
use vstd::prelude::*;
use vstd::string::StringExecFns;
use crate::error::{InvalidArg, RsmqError, RsmqResult};
use crate::ids::{
    id_time_spec, make_message_id, message_id_spec, message_time, push_char, ID_TIME_LIMIT_MS,
};
use crate::queue::{check_delay, check_seconds_hidden};
use crate::types::{QueueConfig, RawMessage, ReplyValue, SendPlan};
use crate::validate::{
    is_id_char, is_valid_message_id, valid_delay, valid_message_id_spec, valid_seconds_hidden,
    MAX_DELAY,
    UNLIMITED_MAXSIZE,
};

verus! {

/// The time, in milliseconds, at which something hidden for `secs` seconds
/// from `now_ms` becomes visible.
pub open spec fn visible_at_spec(now_ms: u64, secs: u64) -> int {
    now_ms + secs * 1000
}

/// The payload fits the queue's `maxsize`.
pub open spec fn fits_spec(maxsize: i64, len: nat) -> bool {
    maxsize == UNLIMITED_MAXSIZE || len <= maxsize
}

/// The server time can stand in an id.
pub open spec fn time_ok(now_ms: u64) -> bool {
    now_ms < ID_TIME_LIMIT_MS
}

fn visible_at(now_ms: u64, secs: u64) -> (r: u64)
    requires
        now_ms < ID_TIME_LIMIT_MS,
        secs <= MAX_DELAY,
    ensures
        r == visible_at_spec(now_ms, secs),
{
    now_ms + secs * 1000
}

fn server_time_error() -> (r: RsmqError)
    ensures
        r is InvalidFormat,
{
    RsmqError::InvalidFormat(String::from_str("server time out of range"))
}

/// Decides `send_message` from the queue's settings (`None`: no such
/// queue), the payload length, the delay given, the server time and the
/// value the queue's counter took for this message.
pub fn plan_send(
    config: Option<QueueConfig>,
    payload_len: usize,
    delay: Option<u64>,
    now_ms: u64,
    counter: u64,
) -> (r: RsmqResult<SendPlan>)
    ensures
        config is None ==> r == Err::<SendPlan, RsmqError>(RsmqError::QueueNotFound),
        config is Some ==> ({
            let c = config->0;
            let d = match delay { Some(v) => v, None => c.delay };
            &&& !valid_delay(d) ==> r == Err::<SendPlan, RsmqError>(RsmqError::InvalidValue(InvalidArg::Delay(d)))
            &&& valid_delay(d) && !fits_spec(c.maxsize, payload_len as nat) ==> r == Err::<SendPlan, RsmqError>(RsmqError::MessageTooLong)
            &&& valid_delay(d) && fits_spec(c.maxsize, payload_len as nat) && !time_ok(now_ms) ==> r is Err && r->Err_0 is InvalidFormat
            &&& valid_delay(d) && fits_spec(c.maxsize, payload_len as nat) && time_ok(now_ms) ==> r is Ok
                && r->Ok_0.visible_at == visible_at_spec(now_ms, d)
                && r->Ok_0.id@ == message_id_spec(now_ms as nat, counter as nat)
                && r->Ok_0.id@.len() == 32
                && id_time_spec(r->Ok_0.id@) == Some(now_ms as nat)
        }),
{
    let c = match config {
        Some(c) => c,
        None => return Err(RsmqError::QueueNotFound),
    };
    let d = match delay {
        Some(v) => v,
        None => c.delay,
    };
    let d = check_delay(d)?;
    if c.maxsize != UNLIMITED_MAXSIZE && (payload_len as i128) > (c.maxsize as i128) {
        return Err(RsmqError::MessageTooLong);
    }
    if now_ms >= ID_TIME_LIMIT_MS {
        return Err(server_time_error());
    }
    let id = make_message_id(now_ms, counter);
    Ok(SendPlan { id, visible_at: visible_at(now_ms, d) })
}

/// Decides when a message handed out by `receive_message` becomes visible
/// again, from the queue's `vt` (`None`: no such queue), the hiding time
/// given and the server time.
pub fn plan_receive(queue_vt: Option<u64>, seconds_hidden: Option<u64>, now_ms: u64) -> (r: RsmqResult<u64>)
    ensures
        queue_vt is None ==> r == Err::<u64, RsmqError>(RsmqError::QueueNotFound),
        queue_vt is Some ==> ({
            let h = match seconds_hidden { Some(v) => v, None => queue_vt->0 };
            &&& !valid_seconds_hidden(h) ==> r == Err::<u64, RsmqError>(RsmqError::InvalidValue(InvalidArg::SecondsHidden(h)))
            &&& valid_seconds_hidden(h) && !time_ok(now_ms) ==> r is Err && r->Err_0 is InvalidFormat
            &&& valid_seconds_hidden(h) && time_ok(now_ms) ==> r == Ok::<u64, RsmqError>(visible_at_spec(now_ms, h) as u64)
        }),
{
    let vt = match queue_vt {
        Some(v) => v,
        None => return Err(RsmqError::QueueNotFound),
    };
    let h = match seconds_hidden {
        Some(v) => v,
        None => vt,
    };
    let h = check_seconds_hidden(h)?;
    if now_ms >= ID_TIME_LIMIT_MS {
        return Err(server_time_error());
    }
    Ok(visible_at(now_ms, h))
}

/// Decides the new visible-at time of `change_message_visibility`, from
/// the id and the hiding time (both checked before anything reaches the
/// server), whether the queue was found, and the server time.
pub fn plan_change_visibility(message_id: &str, seconds_hidden: u64, queue_found: bool, now_ms: u64) -> (r: RsmqResult<u64>)
    ensures
        !valid_message_id_spec(message_id@) ==> (match r {
            Err(RsmqError::InvalidValue(InvalidArg::MessageId(s))) => s@ == message_id@,
            _ => false,
        }),
        valid_message_id_spec(message_id@) && !valid_delay(seconds_hidden) ==> r == Err::<u64, RsmqError>(RsmqError::InvalidValue(InvalidArg::SecondsHidden(seconds_hidden))),
        valid_message_id_spec(message_id@) && valid_delay(seconds_hidden) && !queue_found ==> r == Err::<u64, RsmqError>(RsmqError::QueueNotFound),
        valid_message_id_spec(message_id@) && valid_delay(seconds_hidden) && queue_found && !time_ok(now_ms) ==> r is Err && r->Err_0 is InvalidFormat,
        valid_message_id_spec(message_id@) && valid_delay(seconds_hidden) && queue_found && time_ok(now_ms) ==> r == Ok::<u64, RsmqError>(visible_at_spec(now_ms, seconds_hidden) as u64),
{
    if !is_valid_message_id(message_id) {
        return Err(RsmqError::InvalidValue(InvalidArg::MessageId(String::from_str(message_id))));
    }
    if seconds_hidden > MAX_DELAY {
        return Err(RsmqError::InvalidValue(InvalidArg::SecondsHidden(seconds_hidden)));
    }
    if !queue_found {
        return Err(RsmqError::QueueNotFound);
    }
    if now_ms >= ID_TIME_LIMIT_MS {
        return Err(server_time_error());
    }
    Ok(visible_at(now_ms, seconds_hidden))
}

/// The settings of a queue that must exist (send and pop check this before
/// they write anything).
pub fn require_queue(config: Option<QueueConfig>) -> (r: RsmqResult<QueueConfig>)
    ensures
        config is None ==> r == Err::<QueueConfig, RsmqError>(RsmqError::QueueNotFound),
        config is Some ==> r == Ok::<QueueConfig, RsmqError>(config->0),
{
    match config {
        Some(c) => Ok(c),
        None => Err(RsmqError::QueueNotFound),
    }
}

/// Outcome of `change_message_visibility` from the script's reply.
pub open spec fn change_visibility_outcome_spec(reply: i64) -> Result<(), RsmqError> {
    if reply == 1 {
        Ok(())
    } else {
        Err(RsmqError::MessageNotFound)
    }
}

pub fn decide_change_visibility(reply: i64) -> (r: RsmqResult<()>)
    ensures
        r == change_visibility_outcome_spec(reply),
{
    if reply == 1 {
        Ok(())
    } else {
        Err(RsmqError::MessageNotFound)
    }
}

/// Outcome of `delete_message` from the counts that `ZREM` and `HDEL`
/// returned.
pub open spec fn delete_message_outcome_spec(zrem: i64, hdel: i64) -> bool {
    zrem == 1 && hdel >= 1
}

pub fn decide_delete_message(zrem: i64, hdel: i64) -> (r: bool)
    ensures
        r == delete_message_outcome_spec(zrem, hdel),
{
    zrem == 1 && hdel >= 1
}

/// The characters that the bytes of an id stand for.
pub open spec fn chars_of(b: Seq<u8>) -> Seq<char> {
    b.map_values(|x: u8| x as char)
}

/// The id written by `b`, when it is a well-formed message id.
pub fn id_from_bytes(b: &Vec<u8>) -> (r: Option<String>)
    ensures
        r is Some <==> valid_message_id_spec(chars_of(b@)),
        r is Some ==> r->0@ == chars_of(b@),
{
    if b.len() != 32 {
        return None;
    }
    let mut s = String::new();
    let mut i: usize = 0;
    while i < b.len()
        invariant
            b@.len() == 32,
            i <= 32,
            s@ == chars_of(b@.subrange(0, i as int)),
            forall|j: int| 0 <= j < i ==> is_id_char(#[trigger] chars_of(b@)[j]),
        decreases 32 - i,
    {
        let c = b[i] as char;
        let ok = ('a' <= c && c <= 'z') || ('A' <= c && c <= 'Z') || ('0' <= c && c <= '9') || c
            == ':';
        if !ok {
            proof {
                assert(chars_of(b@)[i as int] == c);
            }
            return None;
        }
        push_char(&mut s, c);
        proof {
            assert(chars_of(b@.subrange(0, i as int + 1)) =~= chars_of(b@.subrange(0, i as int)).push(c));
            assert(chars_of(b@)[i as int] == c);
        }
        i = i + 1;
    }
    proof {
        assert(b@.subrange(0, 32) =~= b@);
    }
    Some(s)
}

/// A reply element that is a non-negative integer.
pub open spec fn count_of(v: ReplyValue) -> Option<u64> {
    match v {
        ReplyValue::Int(n) => if n >= 0 { Some(n as u64) } else { None },
        _ => None,
    }
}

fn count_exec(v: &ReplyValue) -> (r: Option<u64>)
    ensures
        r == count_of(*v),
{
    match v {
        ReplyValue::Int(n) => if *n >= 0 { Some(*n as u64) } else { None },
        _ => None,
    }
}

/// What the receive and pop scripts' reply says: `Ok(None)` for an empty
/// reply (nothing visible) or a message whose payload is gone (a send that
/// was cut short); `Ok(Some(..))` for `[id, payload, rc, fr]`; else
/// `InvalidFormat`.
pub open spec fn script_reply_ok(reply: Seq<ReplyValue>) -> bool {
    reply.len() == 0 || (reply.len() == 4 && reply[0] is Data && valid_message_id_spec(
        chars_of(reply[0]->Data_0@),
    ) && id_time_spec(chars_of(reply[0]->Data_0@)) is Some && id_time_spec(
        chars_of(reply[0]->Data_0@),
    )->0 <= u64::MAX && (reply[1] is Data || reply[1] is Nil) && count_of(reply[2]) is Some
        && count_of(reply[3]) is Some)
}

/// Decodes the reply of the receive or pop script.
pub fn decode_message_reply(reply: &Vec<ReplyValue>) -> (r: RsmqResult<Option<RawMessage>>)
    ensures
        r is Ok <==> script_reply_ok(reply@),
        r is Err ==> r->Err_0 is InvalidFormat,
        r is Ok ==> (r->Ok_0 is Some <==> reply@.len() == 4 && reply@[1] is Data),
        r is Ok && r->Ok_0 is Some ==> ({
            let m = r->Ok_0->0;
            &&& m.id@ == chars_of(reply@[0]->Data_0@)
            &&& m.message@ == reply@[1]->Data_0@
            &&& m.rc == count_of(reply@[2])->0
            &&& m.fr == count_of(reply@[3])->0
            &&& m.sent == id_time_spec(m.id@)->0
        }),
{
    if reply.len() == 0 {
        return Ok(None);
    }
    if reply.len() != 4 {
        return Err(RsmqError::InvalidFormat(String::from_str("script reply of wrong length")));
    }
    let id = match &reply[0] {
        ReplyValue::Data(b) => match id_from_bytes(b) {
            Some(s) => s,
            None => return Err(RsmqError::InvalidFormat(String::from_str("malformed message id"))),
        },
        _ => return Err(RsmqError::InvalidFormat(String::from_str("message id missing"))),
    };
    let sent = match message_time(id.as_str()) {
        Some(t) => t,
        None => return Err(RsmqError::InvalidFormat(String::from_str("malformed message id"))),
    };
    let rc = match count_exec(&reply[2]) {
        Some(n) => n,
        None => return Err(RsmqError::InvalidFormat(String::from_str("receive count missing"))),
    };
    let fr = match count_exec(&reply[3]) {
        Some(n) => n,
        None => return Err(RsmqError::InvalidFormat(String::from_str("first receive missing"))),
    };
    match &reply[1] {
        ReplyValue::Data(p) => Ok(Some(RawMessage { id, message: p.clone(), rc, fr, sent })),
        ReplyValue::Nil => Ok(None),
        ReplyValue::Int(_) => Err(RsmqError::InvalidFormat(String::from_str("payload missing"))),
    }
}

} // verus!
