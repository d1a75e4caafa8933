use mailsink::buffer::MessageBuffer;
use mailsink::config::{api_port, bind_address, index_page_path, listener_port, static_dir};
use mailsink::date::{instant_of, is_later};
use mailsink::text::{i64_to_decimal, u64_to_decimal};

#[test]
fn buffer_collects_chunks() {
    let mut b = MessageBuffer::new();
    assert!(b.contents().is_empty());
    b.start();
    b.append(b"Subject: a\r\n");
    b.append(b"\r\nbody");
    assert_eq!(b.contents(), b"Subject: a\r\n\r\nbody");
}

#[test]
fn buffer_start_drops_previous_message() {
    let mut b = MessageBuffer::new();
    b.append(b"old");
    b.start();
    assert!(b.contents().is_empty());
    b.append(b"new");
    assert_eq!(b.contents(), b"new");
}

#[test]
fn defaults_apply_when_unset() {
    assert_eq!(listener_port(None), "1025");
    assert_eq!(api_port(None), "1080");
    assert_eq!(static_dir(None), "/app/public");
    assert_eq!(listener_port(Some("2525".to_string())), "2525");
    assert_eq!(api_port(Some("8080".to_string())), "8080");
    assert_eq!(static_dir(Some("/srv".to_string())), "/srv");
}

#[test]
fn addresses_and_paths() {
    assert_eq!(bind_address("1025"), "0.0.0.0:1025");
    assert_eq!(index_page_path("/app/public"), "/app/public/index.html");
}

#[test]
fn instants_of_dates() {
    assert_eq!(instant_of("0000-01-01T00:00:00Z"), Some(0));
    assert_eq!(instant_of("0001-01-01T00:00:00Z"), Some(366 * 86400));
    assert_eq!(instant_of("1970-01-01T00:00:00Z"), Some(62167219200));
    assert_eq!(instant_of("1970-01-01T01:00:00+01:00"), Some(62167219200));
    assert_eq!(instant_of("2024-03-01T00:00:00Z").unwrap() - instant_of("2024-02-28T00:00:00Z").unwrap(), 2 * 86400);
    assert_eq!(instant_of("2023-03-01T00:00:00Z").unwrap() - instant_of("2023-02-28T00:00:00Z").unwrap(), 86400);
}

#[test]
fn offsets_are_taken_into_account() {
    assert_eq!(instant_of("1999-12-31T23:30:00-05:00"), instant_of("2000-01-01T04:30:00Z"));
    assert!(is_later(instant_of("1999-12-31T23:30:00-05:00"), instant_of("2000-01-01T01:00:00Z")));
    assert!(!is_later(instant_of("2000-01-01T01:00:00Z"), instant_of("1999-12-31T23:30:00-05:00")));
}

#[test]
fn malformed_dates_have_no_instant() {
    assert_eq!(instant_of("2024-13-01T00:00:00Z"), None);
    assert_eq!(instant_of("2024-01-01 00:00:00Z"), None);
    assert_eq!(instant_of("2024-01-01T00:00:00+0100"), None);
    assert_eq!(instant_of("not a date"), None);
    assert_eq!(instant_of(""), None);
    assert!(is_later(instant_of("2024-01-01T00:00:00Z"), None));
    assert!(!is_later(None, instant_of("2024-01-01T00:00:00Z")));
    assert!(!is_later(None, None));
}

#[test]
fn decimal_forms() {
    assert_eq!(u64_to_decimal(0), "0");
    assert_eq!(u64_to_decimal(1234567890), "1234567890");
    assert_eq!(u64_to_decimal(u64::MAX), "18446744073709551615");
    assert_eq!(i64_to_decimal(-1), "-1");
    assert_eq!(i64_to_decimal(i64::MIN), "-9223372036854775808");
    assert_eq!(i64_to_decimal(i64::MAX), "9223372036854775807");
}
