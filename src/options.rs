//! Handle settings and the keys a handle works on.
use vstd::prelude::*;
use vstd::string::StringExecFns;
use crate::error::{RsmqError, RsmqResult};
use crate::keys::{index_key, index_key_spec, queue_hash_key, queue_hash_key_spec, DEFAULT_NAMESPACE};
use crate::validate::{check_queue_name, valid_queue_name_spec};

verus! {

/// Connection options. Only `ns` and `realtime` affect the protocol; the
/// others are handed to the transport.
#[derive(Debug, Clone)]
pub struct RsmqOptions {
    pub host: String,
    pub port: u16,
    pub db: u8,
    pub password: Option<String>,
    /// Prefix of every key.
    pub ns: String,
    /// Publish the queue's message count after every send.
    pub realtime: bool,
}

impl Default for RsmqOptions {
    fn default() -> (r: RsmqOptions)
        ensures
            r.port == 6379,
            r.db == 0,
            r.password is None,
            r.ns@ == DEFAULT_NAMESPACE@,
            r.realtime == false,
    {
        RsmqOptions {
            host: String::from_str("localhost"),
            port: 6379,
            db: 0,
            password: None,
            ns: String::from_str(DEFAULT_NAMESPACE),
            realtime: false,
        }
    }
}

/// The two keys of one queue.
#[derive(Debug, Clone, PartialEq, Eq)]
pub struct QueueKeys {
    /// The queue hash.
    pub hash: String,
    /// The message index.
    pub index: String,
}

/// Checks a queue name and derives its keys under namespace `ns`.
pub fn queue_keys(ns: &str, qname: &str) -> (r: RsmqResult<QueueKeys>)
    ensures
        r is Ok <==> valid_queue_name_spec(qname@),
        r is Ok ==> r->Ok_0.hash@ == queue_hash_key_spec(ns@, qname@) && r->Ok_0.index@
            == index_key_spec(ns@, qname@),
        r is Err ==> r->Err_0 is InvalidValue,
{
    check_queue_name(qname)?;
    Ok(QueueKeys { hash: queue_hash_key(ns, qname), index: index_key(ns, qname) })
}

} // verus!
