use rsmq_async::queue::{
    check_delay, check_maxsize, check_seconds_hidden, decide_create_queue, decide_delete_queue,
    plan_create_queue, plan_set_queue_attributes, queue_attributes,
};
use rsmq_async::{AttributeUpdate, InvalidArg, QueueConfig, RsmqError};

#[test]
fn create_queue_defaults() {
    assert_eq!(
        plan_create_queue("queue4", None, None, None),
        Ok(QueueConfig { vt: 30, delay: 0, maxsize: 65536 })
    );
}

#[test]
fn create_queue_given_values() {
    assert_eq!(
        plan_create_queue("queueM", Some(0), Some(9_999_999), Some(1024)),
        Ok(QueueConfig { vt: 0, delay: 9_999_999, maxsize: 1024 })
    );
    assert_eq!(
        plan_create_queue("queueM", None, None, Some(-1)),
        Ok(QueueConfig { vt: 30, delay: 0, maxsize: -1 })
    );
}

#[test]
fn create_queue_out_of_range() {
    assert_eq!(
        plan_create_queue("q", Some(259_201), None, None),
        Err(RsmqError::InvalidValue(InvalidArg::SecondsHidden(259_201)))
    );
    assert_eq!(
        plan_create_queue("q", None, Some(10_000_000), None),
        Err(RsmqError::InvalidValue(InvalidArg::Delay(10_000_000)))
    );
    assert_eq!(
        plan_create_queue("q", None, None, Some(1023)),
        Err(RsmqError::InvalidValue(InvalidArg::MaxSize(1023)))
    );
    assert_eq!(
        plan_create_queue("q", None, None, Some(65537)),
        Err(RsmqError::InvalidValue(InvalidArg::MaxSize(65537)))
    );
    assert_eq!(
        plan_create_queue("bad name", None, None, None),
        Err(RsmqError::InvalidValue(InvalidArg::QueueName("bad name".to_string())))
    );
}

#[test]
fn create_existing_queue_fails() {
    assert_eq!(decide_create_queue(false), Ok(()));
    assert_eq!(decide_create_queue(true), Err(RsmqError::QueueExists));
}

#[test]
fn delete_missing_queue_fails() {
    assert_eq!(decide_delete_queue(1), Ok(()));
    assert_eq!(decide_delete_queue(0), Err(RsmqError::QueueNotFound));
}

#[test]
fn range_checks() {
    assert_eq!(check_seconds_hidden(259_200), Ok(259_200));
    assert!(check_seconds_hidden(259_201).is_err());
    assert_eq!(check_delay(9_999_999), Ok(9_999_999));
    assert!(check_delay(10_000_000).is_err());
    assert_eq!(check_maxsize(-1), Ok(-1));
    assert_eq!(check_maxsize(65536), Ok(65536));
    assert!(check_maxsize(0).is_err());
    assert!(check_maxsize(-2).is_err());
}

#[test]
fn set_attributes_needs_one() {
    assert_eq!(
        plan_set_queue_attributes("queue4", None, None, None),
        Err(RsmqError::NoAttributeSupplied)
    );
}

#[test]
fn set_attributes_checks_ranges() {
    assert_eq!(
        plan_set_queue_attributes("queue4", Some(45), Some(5), Some(2048)),
        Ok(AttributeUpdate { vt: Some(45), delay: Some(5), maxsize: Some(2048) })
    );
    assert_eq!(
        plan_set_queue_attributes("queue4", Some(300_000), None, None),
        Err(RsmqError::InvalidValue(InvalidArg::SecondsHidden(300_000)))
    );
    assert_eq!(
        plan_set_queue_attributes("queue4", None, Some(10_000_000), None),
        Err(RsmqError::InvalidValue(InvalidArg::Delay(10_000_000)))
    );
    assert_eq!(
        plan_set_queue_attributes("queue4", None, None, Some(100)),
        Err(RsmqError::InvalidValue(InvalidArg::MaxSize(100)))
    );
}

#[test]
fn attributes_of_new_queue() {
    let fields = vec![Some(30), Some(0), Some(65536), Some(0), Some(0), Some(1_700_000_000), Some(1_700_000_000)];
    let a = queue_attributes(&fields, 0, 0).unwrap();
    assert_eq!(a.vt, 30);
    assert_eq!(a.delay, 0);
    assert_eq!(a.maxsize, 65536);
    assert_eq!(a.totalrecv, 0);
    assert_eq!(a.totalsent, 0);
    assert_eq!(a.msgs, 0);
    assert_eq!(a.hiddenmsgs, 0);
    assert!(a.created > 0);
    assert!(a.modified > 0);
}

#[test]
fn attributes_without_counters() {
    let fields = vec![Some(30), Some(0), Some(65536), None, None, Some(5), Some(6)];
    let a = queue_attributes(&fields, 0, 0).unwrap();
    assert_eq!(a.totalrecv, 0);
    assert_eq!(a.totalsent, 0);
    assert_eq!(a.created, 5);
    assert_eq!(a.modified, 6);
}

#[test]
fn attributes_of_missing_queue() {
    let fields = vec![None, None, None, None, None, None, None];
    assert_eq!(queue_attributes(&fields, 0, 0), Err(RsmqError::QueueNotFound));
}

#[test]
fn attributes_unlimited_maxsize_and_bad_reply() {
    let fields = vec![Some(45), Some(5), Some(-1), Some(3), Some(4), Some(10), Some(20)];
    let a = queue_attributes(&fields, 2, 1).unwrap();
    assert_eq!(a.maxsize, -1);
    assert_eq!(a.msgs, 2);
    assert_eq!(a.hiddenmsgs, 1);
    let short = vec![Some(45)];
    assert!(matches!(queue_attributes(&short, 0, 0), Err(RsmqError::InvalidFormat(_))));
    let neg = vec![Some(45), Some(-5), Some(1024), Some(0), Some(0), Some(1), Some(1)];
    assert!(matches!(queue_attributes(&neg, 0, 0), Err(RsmqError::InvalidFormat(_))));
}
