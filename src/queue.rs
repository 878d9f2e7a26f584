//! Decisions of the queue operations: create, delete, attributes.
use vstd::prelude::*;
use vstd::string::StringExecFns;
use crate::error::{InvalidArg, RsmqError, RsmqResult};
use crate::types::{AttributeUpdate, QueueConfig, RsmqQueueAttributes};
use crate::validate::{
    check_queue_name, valid_delay, valid_maxsize, valid_queue_name_spec, valid_seconds_hidden,
    MAX_DELAY, MAX_MAXSIZE, MAX_SECONDS_HIDDEN, MIN_MAXSIZE, UNLIMITED_MAXSIZE,
};

verus! {

/// Default visibility timeout of a new queue, seconds.
pub const DEFAULT_VT: u64 = 30;
/// Default delay of a new queue, seconds.
pub const DEFAULT_DELAY: u64 = 0;
/// Default `maxsize` of a new queue, bytes.
pub const DEFAULT_MAXSIZE: i64 = 65536;

pub fn check_seconds_hidden(v: u64) -> (r: RsmqResult<u64>)
    ensures
        r is Ok <==> valid_seconds_hidden(v),
        r is Ok ==> r->Ok_0 == v,
        r is Err ==> r->Err_0 == RsmqError::InvalidValue(InvalidArg::SecondsHidden(v)),
{
    if v <= MAX_SECONDS_HIDDEN {
        Ok(v)
    } else {
        Err(RsmqError::InvalidValue(InvalidArg::SecondsHidden(v)))
    }
}

pub fn check_delay(v: u64) -> (r: RsmqResult<u64>)
    ensures
        r is Ok <==> valid_delay(v),
        r is Ok ==> r->Ok_0 == v,
        r is Err ==> r->Err_0 == RsmqError::InvalidValue(InvalidArg::Delay(v)),
{
    if v <= MAX_DELAY {
        Ok(v)
    } else {
        Err(RsmqError::InvalidValue(InvalidArg::Delay(v)))
    }
}

pub fn check_maxsize(v: i64) -> (r: RsmqResult<i64>)
    ensures
        r is Ok <==> valid_maxsize(v),
        r is Ok ==> r->Ok_0 == v,
        r is Err ==> r->Err_0 == RsmqError::InvalidValue(InvalidArg::MaxSize(v)),
{
    if v == UNLIMITED_MAXSIZE || (MIN_MAXSIZE <= v && v <= MAX_MAXSIZE) {
        Ok(v)
    } else {
        Err(RsmqError::InvalidValue(InvalidArg::MaxSize(v)))
    }
}

/// The settings a new queue gets: each one given, else its default.
pub open spec fn create_config_spec(vt: Option<u32>, delay: Option<u32>, maxsize: Option<i32>) -> QueueConfig {
    QueueConfig {
        vt: match vt { Some(v) => v as u64, None => DEFAULT_VT },
        delay: match delay { Some(v) => v as u64, None => DEFAULT_DELAY },
        maxsize: match maxsize { Some(v) => v as i64, None => DEFAULT_MAXSIZE },
    }
}

/// Arguments of `create_queue` that are all in range.
pub open spec fn create_args_valid(qname: Seq<char>, vt: Option<u32>, delay: Option<u32>, maxsize: Option<i32>) -> bool {
    let c = create_config_spec(vt, delay, maxsize);
    valid_queue_name_spec(qname) && valid_seconds_hidden(c.vt) && valid_delay(c.delay)
        && valid_maxsize(c.maxsize)
}

/// Validates the arguments of `create_queue` and applies the defaults.
/// The name is checked first, then `seconds_hidden`, `delay`, `maxsize`.
pub fn plan_create_queue(
    qname: &str,
    seconds_hidden: Option<u32>,
    delay: Option<u32>,
    maxsize: Option<i32>,
) -> (r: RsmqResult<QueueConfig>)
    ensures
        r is Ok <==> create_args_valid(qname@, seconds_hidden, delay, maxsize),
        r is Ok ==> r->Ok_0 == create_config_spec(seconds_hidden, delay, maxsize),
        r is Err ==> r->Err_0 is InvalidValue,
        r is Err && valid_queue_name_spec(qname@) ==> (r->Err_0 == RsmqError::InvalidValue(
            if !valid_seconds_hidden(create_config_spec(seconds_hidden, delay, maxsize).vt) {
                InvalidArg::SecondsHidden(create_config_spec(seconds_hidden, delay, maxsize).vt)
            } else if !valid_delay(create_config_spec(seconds_hidden, delay, maxsize).delay) {
                InvalidArg::Delay(create_config_spec(seconds_hidden, delay, maxsize).delay)
            } else {
                InvalidArg::MaxSize(create_config_spec(seconds_hidden, delay, maxsize).maxsize)
            },
        )),
{
    check_queue_name(qname)?;
    let vt: u64 = match seconds_hidden {
        Some(v) => v as u64,
        None => DEFAULT_VT,
    };
    let d: u64 = match delay {
        Some(v) => v as u64,
        None => DEFAULT_DELAY,
    };
    let m: i64 = match maxsize {
        Some(v) => v as i64,
        None => DEFAULT_MAXSIZE,
    };
    let vt = check_seconds_hidden(vt)?;
    let d = check_delay(d)?;
    let m = check_maxsize(m)?;
    Ok(QueueConfig { vt, delay: d, maxsize: m })
}

/// Outcome of `create_queue` once the watched queue hash has been read:
/// a hash that already holds `vt` is an existing queue.
pub open spec fn create_outcome_spec(vt_present: bool) -> Result<(), RsmqError> {
    if vt_present {
        Err(RsmqError::QueueExists)
    } else {
        Ok(())
    }
}

pub fn decide_create_queue(vt_present: bool) -> (r: RsmqResult<()>)
    ensures
        r == create_outcome_spec(vt_present),
{
    if vt_present {
        Err(RsmqError::QueueExists)
    } else {
        Ok(())
    }
}

/// Outcome of `delete_queue` from the count of hashes its `DEL` removed.
pub open spec fn delete_queue_outcome_spec(deleted: i64) -> Result<(), RsmqError> {
    if deleted == 0 {
        Err(RsmqError::QueueNotFound)
    } else {
        Ok(())
    }
}

pub fn decide_delete_queue(deleted: i64) -> (r: RsmqResult<()>)
    ensures
        r == delete_queue_outcome_spec(deleted),
{
    if deleted == 0 {
        Err(RsmqError::QueueNotFound)
    } else {
        Ok(())
    }
}

/// Validates the arguments of `set_queue_attributes`: at least one must be
/// given, and each given one must be in range (checked in argument order).
pub fn plan_set_queue_attributes(
    qname: &str,
    seconds_hidden: Option<u64>,
    delay: Option<u64>,
    maxsize: Option<i64>,
) -> (r: RsmqResult<AttributeUpdate>)
    ensures
        r is Ok <==> valid_queue_name_spec(qname@) && !(seconds_hidden is None && delay is None
            && maxsize is None) && (seconds_hidden is Some ==> valid_seconds_hidden(
            seconds_hidden->0,
        )) && (delay is Some ==> valid_delay(delay->0)) && (maxsize is Some ==> valid_maxsize(
            maxsize->0,
        )),
        r is Ok ==> r->Ok_0 == (AttributeUpdate { vt: seconds_hidden, delay, maxsize }),
        valid_queue_name_spec(qname@) && seconds_hidden is None && delay is None && maxsize is None
            ==> r == Err::<AttributeUpdate, RsmqError>(RsmqError::NoAttributeSupplied),
        r is Err && r->Err_0 != RsmqError::NoAttributeSupplied ==> r->Err_0 is InvalidValue,
        r is Err && r->Err_0 == RsmqError::NoAttributeSupplied ==> seconds_hidden is None && delay is None
            && maxsize is None,
        valid_queue_name_spec(qname@) && seconds_hidden is Some && !valid_seconds_hidden(
            seconds_hidden->0,
        ) ==> r == Err::<AttributeUpdate, RsmqError>(
            RsmqError::InvalidValue(InvalidArg::SecondsHidden(seconds_hidden->0)),
        ),
{
    check_queue_name(qname)?;
    if seconds_hidden.is_none() && delay.is_none() && maxsize.is_none() {
        return Err(RsmqError::NoAttributeSupplied);
    }
    if let Some(v) = seconds_hidden {
        check_seconds_hidden(v)?;
    }
    if let Some(v) = delay {
        check_delay(v)?;
    }
    if let Some(v) = maxsize {
        check_maxsize(v)?;
    }
    Ok(AttributeUpdate { vt: seconds_hidden, delay, maxsize })
}

/// Number of hash fields read for the attributes: vt, delay, maxsize,
/// totalrecv, totalsent, created, modified.
pub const ATTRIBUTE_FIELDS: usize = 7;

/// A hash field read as an integer that must be present and not negative.
pub open spec fn field_ok(f: Option<i64>) -> bool {
    f is Some && f->0 >= 0
}

/// A counter field: absent (a queue made by a client that does not write
/// it) or not negative.
pub open spec fn counter_ok(f: Option<i64>) -> bool {
    f is None || f->0 >= 0
}

/// A counter field's value, 0 when absent.
pub open spec fn counter_value(f: Option<i64>) -> u64 {
    match f {
        Some(v) => v as u64,
        None => 0,
    }
}

fn attribute_error() -> (r: RsmqError)
    ensures
        r is InvalidFormat,
{
    RsmqError::InvalidFormat(String::from_str("attribute missing or negative"))
}

fn required_field(f: Option<i64>) -> (r: RsmqResult<u64>)
    ensures
        r is Ok <==> field_ok(f),
        r is Ok ==> r->Ok_0 == f->0 as u64,
        r is Err ==> r->Err_0 is InvalidFormat,
{
    match f {
        Some(v) => if v >= 0 { Ok(v as u64) } else { Err(attribute_error()) },
        None => Err(attribute_error()),
    }
}

fn counter_field(f: Option<i64>) -> (r: RsmqResult<u64>)
    ensures
        r is Ok <==> counter_ok(f),
        r is Ok ==> r->Ok_0 == counter_value(f),
        r is Err ==> r->Err_0 is InvalidFormat,
{
    match f {
        Some(v) => if v >= 0 { Ok(v as u64) } else { Err(attribute_error()) },
        None => Ok(0),
    }
}

/// The attributes assembled from the hash fields (in the order of
/// `ATTRIBUTE_FIELDS`) and the two counts of the message index. A missing
/// `vt` means that the queue does not exist; missing counters count as 0.
pub fn queue_attributes(fields: &Vec<Option<i64>>, msgs: u64, hiddenmsgs: u64) -> (r: RsmqResult<RsmqQueueAttributes>)
    ensures
        fields@.len() == ATTRIBUTE_FIELDS && fields@[0] is None ==> r == Err::<RsmqQueueAttributes, RsmqError>(RsmqError::QueueNotFound),
        r is Ok <==> fields@.len() == ATTRIBUTE_FIELDS && field_ok(fields@[0]) && field_ok(fields@[1])
            && fields@[2] is Some && counter_ok(fields@[3]) && counter_ok(fields@[4]) && field_ok(fields@[5])
            && field_ok(fields@[6]),
        r is Ok ==> r->Ok_0 == (RsmqQueueAttributes {
            vt: fields@[0]->0 as u64,
            delay: fields@[1]->0 as u64,
            maxsize: fields@[2]->0,
            totalrecv: counter_value(fields@[3]),
            totalsent: counter_value(fields@[4]),
            created: fields@[5]->0 as u64,
            modified: fields@[6]->0 as u64,
            msgs,
            hiddenmsgs,
        }),
        r is Err && !(fields@.len() == ATTRIBUTE_FIELDS && fields@[0] is None) ==> r->Err_0 is InvalidFormat,
{
    if fields.len() != ATTRIBUTE_FIELDS {
        return Err(RsmqError::InvalidFormat(String::from_str("attribute reply of wrong length")));
    }
    if fields[0].is_none() {
        return Err(RsmqError::QueueNotFound);
    }
    let vt = required_field(fields[0])?;
    let delay = required_field(fields[1])?;
    let maxsize = match fields[2] {
        Some(v) => v,
        None => return Err(attribute_error()),
    };
    let totalrecv = counter_field(fields[3])?;
    let totalsent = counter_field(fields[4])?;
    let created = required_field(fields[5])?;
    let modified = required_field(fields[6])?;
    Ok(RsmqQueueAttributes { vt, delay, maxsize, totalrecv, totalsent, created, modified, msgs, hiddenmsgs })
}

} // verus!
