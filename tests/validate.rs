use rsmq_async::validate::{check_queue_name, is_valid_message_id, is_valid_queue_name};
use rsmq_async::{InvalidArg, RsmqError};

#[test]
fn queue_names() {
    assert!(is_valid_queue_name("queue1"));
    assert!(is_valid_queue_name("a-b_C9"));
    assert!(!is_valid_queue_name(""));
    assert!(!is_valid_queue_name("with space"));
    assert!(!is_valid_queue_name("colon:"));
    assert!(!is_valid_queue_name("ä"));
    assert!(is_valid_queue_name(&"x".repeat(160)));
    assert!(!is_valid_queue_name(&"x".repeat(161)));
}

#[test]
fn message_ids() {
    assert!(is_valid_message_id(&"a".repeat(32)));
    assert!(is_valid_message_id("0123456789:bcdefghijklmnopqrstuv"));
    assert!(!is_valid_message_id(&"a".repeat(31)));
    assert!(!is_valid_message_id(&"-".repeat(32)));
}

#[test]
fn check_queue_name_error() {
    assert_eq!(check_queue_name("ok"), Ok(()));
    assert_eq!(
        check_queue_name(""),
        Err(RsmqError::InvalidValue(InvalidArg::QueueName(String::new())))
    );
}
