//! Live callback forwarding and the counter object.

use std::sync::Arc;
use std::sync::Mutex;

use ankurah_rn_bindings::Counter;
use ankurah_rn_bindings::CounterCallback;
use ankurah_rn_bindings::Level;
use ankurah_rn_bindings::LogCallback;
use ankurah_rn_bindings::LogForwarder;

struct Recorder {
    seen: Arc<Mutex<Vec<(String, String, String)>>>,
}

impl LogCallback for Recorder {
    fn on_log(&self, level: String, target: String, message: String) {
        self.seen.lock().unwrap().push((level, target, message));
    }
}

#[test]
fn test_single_callback_registration() {
    let seen_a: Arc<Mutex<Vec<(String, String, String)>>> = Arc::new(Mutex::new(Vec::new()));
    let seen_b: Arc<Mutex<Vec<(String, String, String)>>> = Arc::new(Mutex::new(Vec::new()));

    let mut fwd: LogForwarder<Recorder> = LogForwarder::new();
    // Registering A succeeds; registering B afterwards is ignored and
    // reported as not accepted, never as an error.
    assert!(fwd.setup_logging(Recorder { seen: seen_a.clone() }));
    assert!(!fwd.setup_logging(Recorder { seen: seen_b.clone() }));

    assert!(fwd.forward_event(&Level::Info, "app".to_string(), "hello".to_string()));

    let a = seen_a.lock().unwrap();
    assert_eq!(a.len(), 1);
    assert_eq!(a[0], ("INFO".to_string(), "app".to_string(), "hello".to_string()));
    assert!(seen_b.lock().unwrap().is_empty());
}

#[test]
fn test_forwarding_respects_severity_floor() {
    let seen: Arc<Mutex<Vec<(String, String, String)>>> = Arc::new(Mutex::new(Vec::new()));
    let mut fwd: LogForwarder<Recorder> = LogForwarder::new();
    assert!(fwd.setup_logging(Recorder { seen: seen.clone() }));

    assert!(!fwd.forward_event(&Level::Trace, "t".to_string(), "too fine".to_string()));
    assert!(!fwd.forward_event(&Level::Debug, "t".to_string(), "still too fine".to_string()));
    assert!(fwd.forward_event(&Level::Warn, "t".to_string(), "kept".to_string()));
    assert!(fwd.forward_event(&Level::Error, "t".to_string(), "kept too".to_string()));

    let got = seen.lock().unwrap();
    assert_eq!(got.len(), 2);
    assert_eq!(got[0].0, "WARN");
    assert_eq!(got[1].0, "ERROR");
}

#[test]
fn test_forwarding_without_callback() {
    let fwd: LogForwarder<Recorder> = LogForwarder::new();
    assert!(!fwd.forward_event(&Level::Error, "t".to_string(), "dropped".to_string()));
}

struct CountRecorder {
    seen: Arc<Mutex<Vec<u32>>>,
}

impl CounterCallback for CountRecorder {
    fn on_update(&self, count: u32) {
        self.seen.lock().unwrap().push(count);
    }
}

#[test]
fn test_counter_increments_and_calls_back() {
    let seen: Arc<Mutex<Vec<u32>>> = Arc::new(Mutex::new(Vec::new()));
    let mut counter: Counter<CountRecorder> = Counter::new();
    assert_eq!(counter.get(), 0);
    // No callback yet: incrementing still counts.
    assert_eq!(counter.increment(), 1);
    counter.set_callback(CountRecorder { seen: seen.clone() });
    assert_eq!(counter.increment(), 2);
    assert_eq!(counter.increment(), 3);
    assert_eq!(counter.get(), 3);
    assert_eq!(*seen.lock().unwrap(), vec![2, 3]);
}
