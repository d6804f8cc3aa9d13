use rdkafka::error::KafkaError;
use rdkafka::util::{
    bytes_cstr_to_owned, duration_to_millis, epoch_millis, find_nul, millis_from_parts,
    millis_to_epoch, until_nul, NativeString,
};
use std::time::{Duration, UNIX_EPOCH};

#[test]
fn test_find_nul_first_of_several() {
    assert_eq!(find_nul(b"ab\0cd\0"), Some(2));
    assert_eq!(find_nul(b"\0"), Some(0));
    assert_eq!(find_nul(b"abc\0"), Some(3));
}

#[test]
fn test_find_nul_none() {
    assert_eq!(find_nul(b"abc"), None);
    assert_eq!(find_nul(b""), None);
}

#[test]
fn test_until_nul() {
    assert_eq!(until_nul(b"broker down\0\0\0\0"), b"broker down");
    assert_eq!(until_nul(b"no end"), b"no end");
    assert_eq!(until_nul(b"\0rest"), b"");
    assert_eq!(until_nul(b""), b"");
}

#[test]
fn test_bytes_cstr_to_owned() {
    let mut buf = [0u8; 1024];
    buf[..7].copy_from_slice(b"failure");
    assert_eq!(bytes_cstr_to_owned(&buf), "failure");
    assert_eq!(bytes_cstr_to_owned(&[0u8; 1024]), "");
}

#[test]
fn test_bytes_cstr_to_owned_replaces_what_is_not_text() {
    assert_eq!(bytes_cstr_to_owned(b"a\xffb\0c"), "a\u{fffd}b");
    assert_eq!(bytes_cstr_to_owned("gr\u{fc}n\0".as_bytes()), "gr\u{fc}n");
}

#[test]
fn test_native_string_takes_text_without_nul() {
    let name = NativeString::new("my_topic").unwrap();
    assert_eq!(name.as_bytes(), b"my_topic");
    let empty = NativeString::new("").unwrap();
    assert_eq!(empty.as_bytes(), b"");
    let wide = NativeString::new("caf\u{e9}").unwrap();
    assert_eq!(wide.as_bytes(), "caf\u{e9}".as_bytes());
}

#[test]
fn test_native_string_refuses_nul() {
    assert_eq!(NativeString::new("my\0topic"), Err(KafkaError::Nul(2)));
    assert_eq!(NativeString::new("\0"), Err(KafkaError::Nul(0)));
    assert_eq!(NativeString::new("a\0b\0"), Err(KafkaError::Nul(1)));
    assert_eq!(NativeString::new("\u{e9}\0"), Err(KafkaError::Nul(2)));
}

#[test]
fn test_millis_from_parts() {
    assert_eq!(millis_from_parts(0, 0), 0);
    assert_eq!(millis_from_parts(1, 0), 1000);
    assert_eq!(millis_from_parts(1, 999_999), 1000);
    assert_eq!(millis_from_parts(1, 1_000_000), 1001);
    assert_eq!(millis_from_parts(1_500_000_000, 123_456_789), 1_500_000_000_123);
    assert_eq!(millis_from_parts(2, 999_999_999), 2999);
}

#[test]
fn test_millis_from_parts_saturates() {
    assert_eq!(millis_from_parts(u64::MAX, 0), u64::MAX);
    assert_eq!(millis_from_parts(u64::MAX / 1000, 999_999_999), u64::MAX);
    assert_eq!(millis_from_parts(u64::MAX / 1000, 0), u64::MAX / 1000 * 1000);
    assert_eq!(millis_from_parts(u64::MAX / 1000 + 1, 0), u64::MAX);
}

#[test]
fn test_duration_to_millis() {
    assert_eq!(duration_to_millis(Duration::new(3, 5_000_000)), 3005);
    assert_eq!(duration_to_millis(Duration::from_millis(1234)), 1234);
    assert_eq!(duration_to_millis(Duration::from_nanos(999_999)), 0);
    assert_eq!(duration_to_millis(Duration::new(u64::MAX, 0)), u64::MAX);
}

#[test]
fn test_epoch_millis() {
    assert_eq!(epoch_millis(None), 0);
    assert_eq!(epoch_millis(Some(0)), 0);
    assert_eq!(epoch_millis(Some(1_500_000_000_123)), 1_500_000_000_123);
    assert_eq!(epoch_millis(Some(i64::MAX as u64)), i64::MAX);
    assert_eq!(epoch_millis(Some(i64::MAX as u64 + 1)), i64::MAX);
    assert_eq!(epoch_millis(Some(u64::MAX)), i64::MAX);
}

#[test]
fn test_millis_to_epoch() {
    assert_eq!(millis_to_epoch(UNIX_EPOCH), 0);
    assert_eq!(millis_to_epoch(UNIX_EPOCH + Duration::from_millis(1_500_000_000_123)), 1_500_000_000_123);
    assert_eq!(millis_to_epoch(UNIX_EPOCH - Duration::from_secs(10)), 0);
}
