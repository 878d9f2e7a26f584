//! What the queue's data on the server is, and what each operation does to
//! it. The scripts and pipelines of the other modules realise these steps;
//! the laws below are proved of them.
use vstd::prelude::*;
use crate::error::RsmqError;
use crate::message::{change_visibility_outcome_spec, delete_message_outcome_spec};
use crate::queue::{create_outcome_spec, delete_queue_outcome_spec};
use crate::types::QueueConfig;

verus! {

/// The data of one queue: its message index (id to visible-at time in
/// milliseconds) and the message fields of its hash.
pub struct QueueModel {
    pub config: QueueConfig,
    pub index: Map<Seq<char>, int>,
    pub payloads: Map<Seq<char>, Seq<u8>>,
    pub rc: Map<Seq<char>, nat>,
    pub fr: Map<Seq<char>, int>,
    pub totalrecv: nat,
    pub totalsent: nat,
}

/// A message as a receive or a pop hands it out.
pub struct Received {
    pub id: Seq<char>,
    /// `None` when the payload field is gone.
    pub payload: Option<Seq<u8>>,
    pub rc: nat,
    pub fr: int,
}

/// Every indexed message has a payload and every payload is indexed.
pub open spec fn consistent(q: QueueModel) -> bool {
    q.index.dom() == q.payloads.dom()
}

pub open spec fn visible(q: QueueModel, id: Seq<char>, now: int) -> bool {
    q.index.contains_key(id) && q.index[id] <= now
}

pub open spec fn first_visible(q: QueueModel, id: Seq<char>, now: int) -> bool {
    visible(q, id, now) && forall|o: Seq<char>| visible(q, o, now) ==> q.index[id] <= q.index[o]
}

/// The message a receive at `now` takes: one with the lowest score among
/// the visible ones.
pub open spec fn next_visible(q: QueueModel, now: int) -> Option<Seq<char>> {
    if exists|id: Seq<char>| first_visible(q, id, now) {
        Some(choose|id: Seq<char>| first_visible(q, id, now))
    } else if exists|id: Seq<char>| visible(q, id, now) {
        Some(choose|id: Seq<char>| visible(q, id, now))
    } else {
        None
    }
}

pub open spec fn rc_of(q: QueueModel, id: Seq<char>) -> nat {
    if q.rc.contains_key(id) {
        q.rc[id]
    } else {
        0
    }
}

pub open spec fn empty_queue(config: QueueConfig) -> QueueModel {
    QueueModel {
        config,
        index: Map::empty(),
        payloads: Map::empty(),
        rc: Map::empty(),
        fr: Map::empty(),
        totalrecv: 0,
        totalsent: 0,
    }
}

/// `send_message` once its plan is made: index the id at `visible_at` and
/// store the payload.
pub open spec fn send_step(q: QueueModel, id: Seq<char>, payload: Seq<u8>, visible_at: int) -> QueueModel {
    QueueModel {
        index: q.index.insert(id, visible_at),
        payloads: q.payloads.insert(id, payload),
        totalsent: q.totalsent + 1,
        ..q
    }
}

/// The receive script at `now`, hiding the message until `visible_at`.
pub open spec fn receive_step(q: QueueModel, now: int, visible_at: int) -> (QueueModel, Option<Received>) {
    match next_visible(q, now) {
        None => (q, None),
        Some(id) => {
            let rc = rc_of(q, id) + 1;
            let fr = if rc == 1 { now } else { q.fr[id] };
            let q2 = QueueModel {
                index: q.index.insert(id, visible_at),
                rc: q.rc.insert(id, rc),
                fr: q.fr.insert(id, fr),
                totalrecv: q.totalrecv + 1,
                ..q
            };
            let payload = if q.payloads.contains_key(id) { Some(q.payloads[id]) } else { None };
            (q2, Some(Received { id, payload, rc, fr }))
        },
    }
}

/// Removes every trace of `id`.
pub open spec fn remove_message(q: QueueModel, id: Seq<char>) -> QueueModel {
    QueueModel {
        index: q.index.remove(id),
        payloads: q.payloads.remove(id),
        rc: q.rc.remove(id),
        fr: q.fr.remove(id),
        ..q
    }
}

/// The pop script at `now`.
pub open spec fn pop_step(q: QueueModel, now: int) -> (QueueModel, Option<Received>) {
    match next_visible(q, now) {
        None => (q, None),
        Some(id) => {
            let rc = rc_of(q, id) + 1;
            let fr = if rc == 1 { now } else { q.fr[id] };
            let q2 = remove_message(QueueModel { totalrecv: q.totalrecv + 1, ..q }, id);
            let payload = if q.payloads.contains_key(id) { Some(q.payloads[id]) } else { None };
            (q2, Some(Received { id, payload, rc, fr }))
        },
    }
}

/// The counts that `delete_message`'s `ZREM` and `HDEL` return.
pub open spec fn delete_counts(q: QueueModel, id: Seq<char>) -> (i64, i64) {
    (
        if q.index.contains_key(id) { 1 } else { 0 },
        ((if q.payloads.contains_key(id) { 1int } else { 0int }) + (if q.rc.contains_key(id) {
            1int
        } else {
            0int
        }) + (if q.fr.contains_key(id) { 1int } else { 0int })) as i64,
    )
}

/// `delete_message`: the new data and the result the caller gets.
pub open spec fn delete_step(q: QueueModel, id: Seq<char>) -> (QueueModel, bool) {
    let (z, h) = delete_counts(q, id);
    (remove_message(q, id), delete_message_outcome_spec(z, h))
}

/// The change-visibility script, and the result the caller gets.
pub open spec fn change_visibility_step(q: QueueModel, id: Seq<char>, visible_at: int) -> (QueueModel, Result<(), RsmqError>) {
    if q.index.contains_key(id) {
        (QueueModel { index: q.index.insert(id, visible_at), ..q }, change_visibility_outcome_spec(1))
    } else {
        (q, change_visibility_outcome_spec(0))
    }
}

/// All queues of a namespace, by name.
pub type StoreModel = Map<Seq<char>, QueueModel>;

/// `create_queue` once its arguments are valid.
pub open spec fn create_step(s: StoreModel, qname: Seq<char>, config: QueueConfig) -> (StoreModel, Result<(), RsmqError>) {
    let r = create_outcome_spec(s.contains_key(qname));
    if r is Ok {
        (s.insert(qname, empty_queue(config)), r)
    } else {
        (s, r)
    }
}

/// `delete_queue`.
pub open spec fn delete_queue_step(s: StoreModel, qname: Seq<char>) -> (StoreModel, Result<(), RsmqError>) {
    (s.remove(qname), delete_queue_outcome_spec(if s.contains_key(qname) { 1 } else { 0 }))
}

} // verus!
