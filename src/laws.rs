//! Laws of the queue operations, proved of the steps in `model`.
use vstd::prelude::*;
use crate::error::RsmqError;
use crate::message::visible_at_spec;
use crate::model::{
    change_visibility_step, consistent, create_step, delete_queue_step, delete_step, empty_queue,
    first_visible, next_visible, pop_step, rc_of, receive_step, send_step, visible, QueueModel,
    StoreModel,
};
use crate::types::QueueConfig;

verus! {

/// Every step keeps the message index and the payload fields in step: an
/// id is indexed exactly when its payload is stored.
pub proof fn lemma_steps_keep_index_and_payloads(
    q: QueueModel,
    id: Seq<char>,
    payload: Seq<u8>,
    now: int,
    visible_at: int,
)
    requires
        consistent(q),
    ensures
        consistent(empty_queue(q.config)),
        consistent(send_step(q, id, payload, visible_at)),
        consistent(receive_step(q, now, visible_at).0),
        consistent(pop_step(q, now).0),
        consistent(delete_step(q, id).0),
        consistent(change_visibility_step(q, id, visible_at).0),
{
    assert(empty_queue(q.config).index.dom() =~= empty_queue(q.config).payloads.dom());
    let s = send_step(q, id, payload, visible_at);
    assert(s.index.dom() =~= s.payloads.dom());
    if let Some(m) = next_visible(q, now) {
        let r = receive_step(q, now, visible_at).0;
        assert(r.index.dom() =~= r.payloads.dom());
        let p = pop_step(q, now).0;
        assert(p.index.dom() =~= p.payloads.dom());
    }
    let d = delete_step(q, id).0;
    assert(d.index.dom() =~= d.payloads.dom());
    let c = change_visibility_step(q, id, visible_at).0;
    assert(c.index.dom() =~= c.payloads.dom());
}

/// The receive count: a new message starts at 0, and each receive of a
/// message hands out its count plus one and stores that; so after `k`
/// receives the count observed is `k`.
pub proof fn lemma_receive_counts(q: QueueModel, id: Seq<char>, payload: Seq<u8>, now: int, visible_at: int)
    ensures
        !q.rc.contains_key(id) ==> rc_of(send_step(q, id, payload, visible_at), id) == 0,
        receive_step(q, now, visible_at).1 is Some ==> ({
            let m = receive_step(q, now, visible_at).1->0;
            &&& m.rc == rc_of(q, m.id) + 1
            &&& rc_of(receive_step(q, now, visible_at).0, m.id) == m.rc
        }),
{
}

/// Nothing in the queue is visible at `now`.
pub open spec fn none_visible(q: QueueModel, now: int) -> bool {
    forall|o: Seq<char>| !visible(q, o, now)
}

proof fn lemma_only_visible(q: QueueModel, id: Seq<char>, now: int)
    requires
        visible(q, id, now),
        forall|o: Seq<char>| o != id ==> !visible(q, o, now),
    ensures
        next_visible(q, now) == Some(id),
{
    assert(first_visible(q, id, now));
}

/// A message sent into a queue where nothing else is visible, and then
/// received once it is visible, comes out with the payload sent.
pub proof fn lemma_send_then_receive(
    q: QueueModel,
    id: Seq<char>,
    payload: Seq<u8>,
    sent_visible_at: int,
    now: int,
    visible_at: int,
)
    requires
        none_visible(q, now),
        sent_visible_at <= now,
    ensures
        receive_step(send_step(q, id, payload, sent_visible_at), now, visible_at).1 is Some,
        receive_step(send_step(q, id, payload, sent_visible_at), now, visible_at).1->0.id == id,
        receive_step(send_step(q, id, payload, sent_visible_at), now, visible_at).1->0.payload
            == Some(payload),
{
    let s = send_step(q, id, payload, sent_visible_at);
    assert forall|o: Seq<char>| o != id implies !visible(s, o, now) by {
        assert(!visible(q, o, now));
    }
    lemma_only_visible(s, id, now);
}

/// A pop leaves the queue as a receive followed by a delete of the
/// message received would, and hands out the same message.
pub proof fn lemma_pop_is_receive_then_delete(q: QueueModel, now: int, visible_at: int)
    ensures
        pop_step(q, now).1 == receive_step(q, now, visible_at).1,
        receive_step(q, now, visible_at).1 is None ==> pop_step(q, now).0 == q,
        receive_step(q, now, visible_at).1 is Some ==> pop_step(q, now).0 == delete_step(
            receive_step(q, now, visible_at).0,
            receive_step(q, now, visible_at).1->0.id,
        ).0,
{
    if let Some(id) = next_visible(q, now) {
        let p = pop_step(q, now).0;
        let d = delete_step(receive_step(q, now, visible_at).0, id).0;
        assert(p.index =~= d.index);
        assert(p.payloads =~= d.payloads);
        assert(p.rc =~= d.rc);
        assert(p.fr =~= d.fr);
    }
}

/// A message sent with a delay of `delay` seconds at `sent_ms`, into a
/// queue where nothing else is visible, is not received before the delay
/// has passed and is received after.
pub proof fn lemma_delay(
    q: QueueModel,
    id: Seq<char>,
    payload: Seq<u8>,
    sent_ms: u64,
    delay: u64,
    now: int,
    visible_at: int,
)
    requires
        none_visible(q, now),
    ensures
        now < visible_at_spec(sent_ms, delay) ==> receive_step(
            send_step(q, id, payload, visible_at_spec(sent_ms, delay)),
            now,
            visible_at,
        ).1 is None,
        now >= visible_at_spec(sent_ms, delay) ==> receive_step(
            send_step(q, id, payload, visible_at_spec(sent_ms, delay)),
            now,
            visible_at,
        ).1 is Some && receive_step(
            send_step(q, id, payload, visible_at_spec(sent_ms, delay)),
            now,
            visible_at,
        ).1->0.id == id,
{
    let s = send_step(q, id, payload, visible_at_spec(sent_ms, delay));
    if now < visible_at_spec(sent_ms, delay) {
        assert forall|o: Seq<char>| !visible(s, o, now) by {
            assert(!visible(q, o, now));
        }
    } else {
        lemma_send_then_receive(q, id, payload, visible_at_spec(sent_ms, delay), now, visible_at);
    }
}

/// Setting a message's visibility to now (a hiding time of zero) succeeds
/// and makes a message receivable at once; when nothing else is visible it
/// is that message that comes out.
pub proof fn lemma_unhide(q: QueueModel, id: Seq<char>, now_ms: u64, later: int, visible_at: int)
    requires
        q.index.contains_key(id),
        later >= now_ms,
    ensures
        change_visibility_step(q, id, visible_at_spec(now_ms, 0)).1 is Ok,
        receive_step(change_visibility_step(q, id, visible_at_spec(now_ms, 0)).0, later, visible_at).1 is Some,
        (forall|o: Seq<char>| o != id ==> !visible(q, o, later)) ==> receive_step(
            change_visibility_step(q, id, visible_at_spec(now_ms, 0)).0,
            later,
            visible_at,
        ).1->0.id == id,
{
    let c = change_visibility_step(q, id, visible_at_spec(now_ms, 0)).0;
    assert(visible(c, id, later));
    if forall|o: Seq<char>| o != id ==> !visible(q, o, later) {
        assert forall|o: Seq<char>| o != id implies !visible(c, o, later) by {
            assert(!visible(q, o, later));
        }
        lemma_only_visible(c, id, later);
    }
}

/// Creating a queue under a name that is taken fails with `QueueExists`,
/// so a second `create_queue` of one name always fails.
pub proof fn lemma_create_twice(s: StoreModel, qname: Seq<char>, c1: QueueConfig, c2: QueueConfig)
    ensures
        create_step(create_step(s, qname, c1).0, qname, c2).1 == Err::<(), RsmqError>(
            RsmqError::QueueExists,
        ),
        s.contains_key(qname) ==> create_step(s, qname, c1).1 == Err::<(), RsmqError>(
            RsmqError::QueueExists,
        ),
{
}

/// Deleting a queue that is not there fails with `QueueNotFound`, so a
/// second `delete_queue` of one name always fails.
pub proof fn lemma_delete_queue_twice(s: StoreModel, qname: Seq<char>)
    ensures
        delete_queue_step(delete_queue_step(s, qname).0, qname).1 == Err::<(), RsmqError>(
            RsmqError::QueueNotFound,
        ),
        s.contains_key(qname) ==> delete_queue_step(s, qname).1 is Ok,
{
}

/// The queue after `k` receives at `now`, each hiding the message taken
/// until `visible_at`.
pub open spec fn receive_times(q: QueueModel, now: int, visible_at: int, k: nat) -> QueueModel
    decreases k,
{
    if k == 0 {
        q
    } else {
        receive_step(receive_times(q, now, visible_at, (k - 1) as nat), now, visible_at).0
    }
}

/// `id` is the one message visible at `now`.
pub open spec fn only_visible(q: QueueModel, id: Seq<char>, now: int) -> bool {
    visible(q, id, now) && forall|o: Seq<char>| o != id ==> !visible(q, o, now)
}

/// Receiving the one visible message `k` times (it stays visible: it is
/// hidden until no later than `now`) raises its count by `k`, and the
/// `k`-th receive hands it out with that count; a message just sent has
/// count 0, so it is observed with count `k`.
pub proof fn lemma_receive_k_times(q: QueueModel, id: Seq<char>, now: int, visible_at: int, k: nat)
    requires
        only_visible(q, id, now),
        visible_at <= now,
    ensures
        only_visible(receive_times(q, now, visible_at, k), id, now),
        rc_of(receive_times(q, now, visible_at, k), id) == rc_of(q, id) + k,
        k >= 1 ==> ({
            let m = receive_step(receive_times(q, now, visible_at, (k - 1) as nat), now, visible_at).1;
            m is Some && m->0.id == id && m->0.rc == rc_of(q, id) + k
        }),
    decreases k,
{
    if k > 0 {
        let p = receive_times(q, now, visible_at, (k - 1) as nat);
        lemma_receive_k_times(q, id, now, visible_at, (k - 1) as nat);
        lemma_only_visible(p, id, now);
        let r = receive_step(p, now, visible_at).0;
        assert(r == receive_times(q, now, visible_at, k));
        assert forall|o: Seq<char>| o != id implies !visible(r, o, now) by {
            assert(!visible(p, o, now));
        }
        assert(visible(r, id, now));
    }
}

} // verus!
