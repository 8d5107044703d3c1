//! Log buffering, panic capture and the diagnostic text they emit.

use ankurah_rn_bindings::Level;
use ankurah_rn_bindings::LogEntry;
use ankurah_rn_bindings::LogStore;
use ankurah_rn_bindings::LoggingSetup;
use ankurah_rn_bindings::PanicLog;
use ankurah_rn_bindings::RingBuffer;
use ankurah_rn_bindings::at_least_info;
use ankurah_rn_bindings::format_panic_file_block;
use ankurah_rn_bindings::level_name;

#[test]
fn test_bounded_log_buffer() {
    // 1500 entries into a capacity-1000 buffer leave exactly the most
    // recent 1000, in original arrival order.
    let mut store = LogStore::new();
    for i in 0..1500u64 {
        store.record_event(i, Level::Info, "app".to_string(), format!("event {}", i));
    }
    assert_eq!(store.len(), 1000);
    let drained = store.get_buffered_logs();
    assert_eq!(drained.len(), 1000);
    assert_eq!(drained[0].timestamp_ms, 500);
    assert_eq!(drained[0].message, "event 500");
    assert_eq!(drained[999].timestamp_ms, 1499);
    assert_eq!(drained[999].message, "event 1499");
    for (k, e) in drained.iter().enumerate() {
        assert_eq!(e.timestamp_ms, 500 + k as u64);
    }
}

#[test]
fn test_drain_exactness() {
    let mut store = LogStore::new();
    store.record_event(1, Level::Info, "a".to_string(), "one".to_string());
    store.record_event(2, Level::Warn, "b".to_string(), "two".to_string());
    let first = store.get_buffered_logs();
    assert_eq!(first.len(), 2);
    assert_eq!(first[0].message, "one");
    assert_eq!(first[1].message, "two");
    let second = store.get_buffered_logs();
    assert!(second.is_empty());
}

#[test]
fn test_record_event_entry_shape() {
    let mut store = LogStore::new();
    store.record_event(42, Level::Error, "core::sync".to_string(), "broken".to_string());
    let drained = store.get_buffered_logs();
    assert_eq!(drained.len(), 1);
    let e: &LogEntry = &drained[0];
    assert_eq!(e.timestamp_ms, 42);
    assert_eq!(e.level, "ERROR");
    assert_eq!(e.target, "core::sync");
    assert_eq!(e.message, "broken");
}

#[test]
fn test_level_names() {
    assert_eq!(level_name(&Level::Trace), "TRACE");
    assert_eq!(level_name(&Level::Debug), "DEBUG");
    assert_eq!(level_name(&Level::Info), "INFO");
    assert_eq!(level_name(&Level::Warn), "WARN");
    assert_eq!(level_name(&Level::Error), "ERROR");
}

#[test]
fn test_severity_floor() {
    assert!(!at_least_info(&Level::Trace));
    assert!(!at_least_info(&Level::Debug));
    assert!(at_least_info(&Level::Info));
    assert!(at_least_info(&Level::Warn));
    assert!(at_least_info(&Level::Error));
}

#[test]
fn test_logging_setup_once() {
    let mut setup = LoggingSetup::new();
    assert!(setup.init_logging());
    assert!(!setup.init_logging());
    assert!(!setup.init_logging());
}

#[test]
fn test_panic_capture_roundtrip() {
    let mut log = PanicLog::new();
    assert_eq!(log.get_last_panic(), None);
    let msg = log.record_panic(
        Some("src/node.rs:10:5".to_string()),
        Some("boom".to_string()),
        "frame 0\nframe 1",
    );
    let last = log.get_last_panic().unwrap();
    assert_eq!(last, msg);
    assert!(last.contains("boom"));
    assert!(last.contains("src/node.rs:10:5"));
    assert_eq!(last, "PANIC at src/node.rs:10:5: boom\nframe 0\nframe 1");
}

#[test]
fn test_panic_fallbacks() {
    let mut log = PanicLog::new();
    let msg = log.record_panic(None, None, "");
    assert_eq!(msg, "PANIC at unknown: Unknown panic\n");
}

#[test]
fn test_panic_list_bounded() {
    let mut log = PanicLog::new();
    for i in 0..150u64 {
        log.record_panic(None, Some(format!("p{}", i)), "");
    }
    assert_eq!(log.len(), 100);
    let last = log.get_last_panic().unwrap();
    assert!(last.contains("p149"));
}

#[test]
fn test_panic_file_block() {
    let block = format_panic_file_block(1700000000, "PANIC at a: b");
    assert_eq!(block, "=== 1700000000 ===\nPANIC at a: b\n\n");
}

#[test]
fn test_ring_buffer_basics() {
    let mut r: RingBuffer<u64> = RingBuffer::new(3);
    assert_eq!(r.capacity(), 3);
    assert_eq!(r.len(), 0);
    assert!(r.last().is_none());
    r.push(10);
    r.push(20);
    assert_eq!(r.len(), 2);
    assert_eq!(*r.last().unwrap(), 20);
    r.push(30);
    r.push(40);
    assert_eq!(r.len(), 3);
    let out = r.drain();
    assert_eq!(out, vec![20, 30, 40]);
    assert_eq!(r.len(), 0);
    assert!(r.drain().is_empty());
}
