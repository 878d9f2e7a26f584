//! Key schema: every Redis key and channel name is derived here from the
//! namespace prefix and the queue name.
use vstd::prelude::*;
use vstd::string::StringExecFns;

verus! {

/// Namespace prefix used when none is configured.
pub const DEFAULT_NAMESPACE: &'static str = "rsmq:";

/// Key of the queue hash (attributes and payload fields).
pub open spec fn queue_hash_key_spec(ns: Seq<char>, qname: Seq<char>) -> Seq<char> {
    ns + qname + seq![':', 'Q']
}

/// Key of the sorted set that indexes a queue's messages by visible-at time.
pub open spec fn index_key_spec(ns: Seq<char>, qname: Seq<char>) -> Seq<char> {
    ns + qname
}

/// Key of the set holding every queue name of the namespace.
pub open spec fn queues_set_key_spec(ns: Seq<char>) -> Seq<char> {
    ns + seq!['Q', 'U', 'E', 'U', 'E', 'S']
}

/// Pub/sub channel that receives realtime notifications of a queue.
pub open spec fn realtime_channel_spec(ns: Seq<char>, qname: Seq<char>) -> Seq<char> {
    ns + seq!['r', 't', ':'] + qname
}

pub fn queue_hash_key(ns: &str, qname: &str) -> (r: String)
    ensures
        r@ == queue_hash_key_spec(ns@, qname@),
{
    let s = String::from_str(ns).concat(qname);
    let r = s.concat(":Q");
    proof {
        reveal_strlit(":Q");
        assert(r@ =~= queue_hash_key_spec(ns@, qname@));
    }
    r
}

pub fn index_key(ns: &str, qname: &str) -> (r: String)
    ensures
        r@ == index_key_spec(ns@, qname@),
{
    String::from_str(ns).concat(qname)
}

pub fn queues_set_key(ns: &str) -> (r: String)
    ensures
        r@ == queues_set_key_spec(ns@),
{
    let r = String::from_str(ns).concat("QUEUES");
    proof {
        reveal_strlit("QUEUES");
        assert(r@ =~= queues_set_key_spec(ns@));
    }
    r
}

pub fn realtime_channel(ns: &str, qname: &str) -> (r: String)
    ensures
        r@ == realtime_channel_spec(ns@, qname@),
{
    let r = String::from_str(ns).concat("rt:").concat(qname);
    proof {
        reveal_strlit("rt:");
        assert(r@ =~= realtime_channel_spec(ns@, qname@));
    }
    r
}

/// Field of the queue hash holding a message's receive count.
pub open spec fn rc_field_spec(id: Seq<char>) -> Seq<char> {
    id + seq![':', 'r', 'c']
}

/// Field of the queue hash holding a message's first-received time.
pub open spec fn fr_field_spec(id: Seq<char>) -> Seq<char> {
    id + seq![':', 'f', 'r']
}

pub fn rc_field(id: &str) -> (r: String)
    ensures
        r@ == rc_field_spec(id@),
{
    let r = String::from_str(id).concat(":rc");
    proof {
        reveal_strlit(":rc");
        assert(r@ =~= rc_field_spec(id@));
    }
    r
}

pub fn fr_field(id: &str) -> (r: String)
    ensures
        r@ == fr_field_spec(id@),
{
    let r = String::from_str(id).concat(":fr");
    proof {
        reveal_strlit(":fr");
        assert(r@ =~= fr_field_spec(id@));
    }
    r
}

} // verus!
