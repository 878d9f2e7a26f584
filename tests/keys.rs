use rsmq_async::keys::{
    fr_field, index_key, queue_hash_key, queues_set_key, rc_field, realtime_channel,
    DEFAULT_NAMESPACE,
};
use rsmq_async::options::queue_keys;
use rsmq_async::{InvalidArg, RsmqError, RsmqOptions};

#[test]
fn key_names() {
    assert_eq!(queue_hash_key("rsmq:", "queue1"), "rsmq:queue1:Q");
    assert_eq!(index_key("rsmq:", "queue1"), "rsmq:queue1");
    assert_eq!(queues_set_key("rsmq:"), "rsmq:QUEUES");
    assert_eq!(realtime_channel("rsmq:", "queue1"), "rsmq:rt:queue1");
    assert_eq!(rc_field("abc"), "abc:rc");
    assert_eq!(fr_field("abc"), "abc:fr");
}

#[test]
fn default_options() {
    let o = RsmqOptions::default();
    assert_eq!(o.ns, DEFAULT_NAMESPACE);
    assert_eq!(o.ns, "rsmq:");
    assert_eq!(o.port, 6379);
    assert!(!o.realtime);
    assert!(o.password.is_none());
}

#[test]
fn queue_keys_checks_name() {
    let k = queue_keys("ns:", "q-1_A").unwrap();
    assert_eq!(k.hash, "ns:q-1_A:Q");
    assert_eq!(k.index, "ns:q-1_A");
    assert_eq!(
        queue_keys("ns:", "bad name"),
        Err(RsmqError::InvalidValue(InvalidArg::QueueName("bad name".to_string())))
    );
}
