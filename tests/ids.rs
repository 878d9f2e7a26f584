use rsmq_async::ids::{decode_base, encode_base, make_message_id, message_time, time_ms};
use rsmq_async::RsmqError;

#[test]
fn id_has_time_then_counter() {
    let id = make_message_id(1_700_000_000_123, 61);
    assert_eq!(id, "00loyw3v5n000000000000000000000Z");
    assert_eq!(id.len(), 32);
}

#[test]
fn id_of_zero() {
    assert_eq!(make_message_id(0, 0), "0".repeat(32));
}

#[test]
fn id_counter_carries_into_next_digit() {
    let id = make_message_id(5, 62);
    assert_eq!(&id[10..], "0000000000000000000010");
}

#[test]
fn id_largest_counter_fits() {
    let id = make_message_id(5, u64::MAX);
    assert_eq!(&id[10..], "00000000000lYGhA16ahyf");
}

#[test]
fn ids_with_other_counters_differ() {
    let a = make_message_id(1000, 1);
    let b = make_message_id(1000, 2);
    assert_ne!(a, b);
}

#[test]
fn id_time_round_trips() {
    let now = 1_700_000_000_123u64;
    let id = make_message_id(now, 7);
    assert_eq!(message_time(&id), Some(now));
}

#[test]
fn id_time_of_garbage_is_none() {
    assert_eq!(message_time("short"), None);
    assert_eq!(message_time("!!!!!!!!!!abc"), None);
}

#[test]
fn encode_and_decode_base() {
    assert_eq!(encode_base(35, 36, 3), "00z");
    assert_eq!(encode_base(36, 36, 2), "10");
    assert_eq!(decode_base("10", 36), Some(36));
    assert_eq!(decode_base("zz", 36), Some(1295));
    assert_eq!(decode_base("Z", 36), None);
    assert_eq!(decode_base("Z", 62), Some(61));
    assert_eq!(decode_base("", 10), Some(0));
}

#[test]
fn decode_base_overflow_is_none() {
    assert_eq!(decode_base("18446744073709551615", 10), Some(u64::MAX));
    assert_eq!(decode_base("18446744073709551616", 10), None);
}

#[test]
fn server_time_to_millis() {
    assert_eq!(time_ms(1_700_000_000, 123_456), Ok(1_700_000_000_123));
    assert_eq!(time_ms(0, 999), Ok(0));
    assert!(matches!(time_ms(u64::MAX, 0), Err(RsmqError::InvalidFormat(_))));
}
