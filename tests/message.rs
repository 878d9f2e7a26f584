use rsmq_async::message::{
    decide_change_visibility, decide_delete_message, decode_message_reply, id_from_bytes,
    plan_change_visibility, plan_receive, plan_send, require_queue,
};
use rsmq_async::{InvalidArg, QueueConfig, ReplyValue, RsmqError};

const NOW: u64 = 1_700_000_000_123;

fn config(maxsize: i64) -> Option<QueueConfig> {
    Some(QueueConfig { vt: 30, delay: 0, maxsize })
}

#[test]
fn send_plan() {
    let p = plan_send(config(65536), 11, None, NOW, 1).unwrap();
    assert_eq!(p.id.len(), 32);
    assert_eq!(p.id, "00loyw3v5n0000000000000000000001");
    assert_eq!(p.visible_at, NOW);
    let p = plan_send(config(65536), 11, Some(5), NOW, 2).unwrap();
    assert_eq!(p.visible_at, NOW + 5000);
}

#[test]
fn send_uses_queue_delay() {
    let c = Some(QueueConfig { vt: 30, delay: 7, maxsize: 65536 });
    assert_eq!(plan_send(c, 1, None, NOW, 1).unwrap().visible_at, NOW + 7000);
}

#[test]
fn require_existing_queue() {
    assert_eq!(require_queue(None), Err(RsmqError::QueueNotFound));
    assert_eq!(require_queue(config(1024)), Ok(QueueConfig { vt: 30, delay: 0, maxsize: 1024 }));
}

#[test]
fn send_to_missing_queue() {
    assert_eq!(plan_send(None, 1, None, NOW, 1), Err(RsmqError::QueueNotFound));
}

#[test]
fn send_too_long() {
    assert_eq!(plan_send(config(1024), 1025, None, NOW, 1), Err(RsmqError::MessageTooLong));
    assert!(plan_send(config(1024), 1024, None, NOW, 1).is_ok());
    assert!(plan_send(config(-1), 1025, None, NOW, 1).is_ok());
}

#[test]
fn send_bad_delay() {
    assert_eq!(
        plan_send(config(1024), 1, Some(10_000_000), NOW, 1),
        Err(RsmqError::InvalidValue(InvalidArg::Delay(10_000_000)))
    );
}

#[test]
fn receive_plan() {
    assert_eq!(plan_receive(Some(30), None, NOW), Ok(NOW + 30_000));
    assert_eq!(plan_receive(Some(30), Some(0), NOW), Ok(NOW));
    assert_eq!(plan_receive(None, None, NOW), Err(RsmqError::QueueNotFound));
    assert_eq!(
        plan_receive(Some(30), Some(259_201), NOW),
        Err(RsmqError::InvalidValue(InvalidArg::SecondsHidden(259_201)))
    );
}

#[test]
fn change_visibility_plan() {
    let id = "00loyw3v5n0000000000000000000001";
    assert_eq!(plan_change_visibility(id, 0, true, NOW), Ok(NOW));
    assert_eq!(plan_change_visibility(id, 10, true, NOW), Ok(NOW + 10_000));
    assert_eq!(plan_change_visibility(id, 10, false, NOW), Err(RsmqError::QueueNotFound));
    assert_eq!(
        plan_change_visibility("nope", 10, true, NOW),
        Err(RsmqError::InvalidValue(InvalidArg::MessageId("nope".to_string())))
    );
    assert_eq!(
        plan_change_visibility(id, 10_000_000, true, NOW),
        Err(RsmqError::InvalidValue(InvalidArg::SecondsHidden(10_000_000)))
    );
    assert_eq!(decide_change_visibility(1), Ok(()));
    assert_eq!(decide_change_visibility(0), Err(RsmqError::MessageNotFound));
}

#[test]
fn delete_message_result() {
    assert!(decide_delete_message(1, 1));
    assert!(decide_delete_message(1, 3));
    assert!(!decide_delete_message(0, 0));
    assert!(!decide_delete_message(1, 0));
}

#[test]
fn id_bytes() {
    let id = "00loyw3v5n0000000000000000000001";
    assert_eq!(id_from_bytes(&id.as_bytes().to_vec()), Some(id.to_string()));
    assert_eq!(id_from_bytes(&b"short".to_vec()), None);
    assert_eq!(id_from_bytes(&vec![b'-'; 32]), None);
}

fn reply(payload: ReplyValue, rc: i64, fr: i64) -> Vec<ReplyValue> {
    vec![
        ReplyValue::Data(b"00loyw3v5n0000000000000000000001".to_vec()),
        payload,
        ReplyValue::Int(rc),
        ReplyValue::Int(fr),
    ]
}

#[test]
fn decode_received_message() {
    let m = decode_message_reply(&reply(ReplyValue::Data(b"testmessage".to_vec()), 2, 17))
        .unwrap()
        .unwrap();
    assert_eq!(m.id, "00loyw3v5n0000000000000000000001");
    assert_eq!(m.message, b"testmessage".to_vec());
    assert_eq!(m.rc, 2);
    assert_eq!(m.fr, 17);
    assert_eq!(m.sent, NOW);
}

#[test]
fn decode_empty_and_gone() {
    assert_eq!(decode_message_reply(&vec![]), Ok(None));
    assert_eq!(decode_message_reply(&reply(ReplyValue::Nil, 1, 5)), Ok(None));
}

#[test]
fn decode_malformed() {
    assert!(matches!(
        decode_message_reply(&vec![ReplyValue::Int(1)]),
        Err(RsmqError::InvalidFormat(_))
    ));
    assert!(matches!(
        decode_message_reply(&reply(ReplyValue::Data(vec![1]), -1, 5)),
        Err(RsmqError::InvalidFormat(_))
    ));
    let mut r = reply(ReplyValue::Data(vec![1]), 1, 5);
    r[0] = ReplyValue::Data(b"bad".to_vec());
    assert!(matches!(decode_message_reply(&r), Err(RsmqError::InvalidFormat(_))));
}
