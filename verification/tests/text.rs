//! Message folding, error rendering, paths, greetings and numbers.

use ankurah_rn_bindings::AnkurahError;
use ankurah_rn_bindings::choose_storage_path;
use ankurah_rn_bindings::get_default_storage_path;
use ankurah_rn_bindings::greet;
use ankurah_rn_bindings::greet_async_message;
use ankurah_rn_bindings::is_message_field;
use ankurah_rn_bindings::u64_to_dec;
use ankurah_rn_bindings::visit_field_buffered;
use ankurah_rn_bindings::visit_field_callback;

#[test]
fn test_message_field_name() {
    assert!(is_message_field("message"));
    assert!(!is_message_field("msg"));
    assert!(!is_message_field("messages"));
    assert!(!is_message_field(""));
    assert!(!is_message_field("mess\u{e4}ge"));
}

#[test]
fn test_visit_buffered_message_field() {
    let mut m = String::new();
    visit_field_buffered(&mut m, "count", "3");
    assert_eq!(m, "count=3");
    visit_field_buffered(&mut m, "message", "database opened");
    assert_eq!(m, "database opened");
    visit_field_buffered(&mut m, "path", "/tmp/db");
    assert_eq!(m, "database opened path=/tmp/db");
}

#[test]
fn test_visit_buffered_fields_only() {
    let mut m = String::new();
    visit_field_buffered(&mut m, "a", "1");
    visit_field_buffered(&mut m, "b", "2");
    visit_field_buffered(&mut m, "c", "3");
    assert_eq!(m, "a=1 b=2 c=3");
}

#[test]
fn test_visit_callback_first_field_style() {
    let mut m = String::new();
    visit_field_callback(&mut m, "reason", "timeout");
    assert_eq!(m, "reason: timeout");
    visit_field_callback(&mut m, "attempt", "2");
    assert_eq!(m, "reason: timeout attempt=2");
    let mut m2 = String::new();
    visit_field_callback(&mut m2, "message", "plain");
    assert_eq!(m2, "plain");
}

#[test]
fn test_error_messages() {
    assert_eq!(
        AnkurahError::Storage { message: "disk full".to_string() }.message(),
        "Storage error: disk full"
    );
    assert_eq!(
        AnkurahError::Connection { message: "refused".to_string() }.message(),
        "Connection error: refused"
    );
    assert_eq!(AnkurahError::NotInitialized.message(), "Not initialized");
    assert_eq!(AnkurahError::AlreadyInitialized.message(), "Already initialized");
    assert_eq!(
        AnkurahError::Internal { message: "oops".to_string() }.message(),
        "Internal error: oops"
    );
}

#[test]
fn test_storage_path_fallback_chain() {
    assert_eq!(
        choose_storage_path(Some("/var/data".to_string()), Some("/home/u".to_string())),
        "/var/data/ankurah"
    );
    assert_eq!(
        choose_storage_path(None, Some("/home/u".to_string())),
        "/home/u/.ankurah"
    );
    assert_eq!(choose_storage_path(None, None), "ankurah_data");
}

#[test]
fn test_default_storage_path_nonempty() {
    assert!(!get_default_storage_path().is_empty());
}

#[test]
fn test_greetings() {
    assert_eq!(greet("World".to_string()), "Hello from Rust, World!");
    assert_eq!(
        greet_async_message("World", 250),
        "Hello Async from Rust, World! (after 250ms)"
    );
}

#[test]
fn test_decimal_rendering() {
    assert_eq!(u64_to_dec(0), "0");
    assert_eq!(u64_to_dec(7), "7");
    assert_eq!(u64_to_dec(10), "10");
    assert_eq!(u64_to_dec(1700000000), "1700000000");
    assert_eq!(u64_to_dec(u64::MAX), "18446744073709551615");
}
