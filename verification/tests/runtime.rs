//! The runtime guard's idempotent enter semantics.

use ankurah_rn_bindings::RuntimeGuard;
use ankurah_rn_bindings::ThreadAttachment;

#[test]
fn test_first_enter_creates_and_attaches() {
    let mut guard = RuntimeGuard::new();
    let mut thread = ThreadAttachment::new();
    let plan = guard.init_runtime(&mut thread);
    assert!(plan.create_runtime);
    assert!(plan.attach_thread);
}

#[test]
fn test_repeat_enter_is_noop() {
    let mut guard = RuntimeGuard::new();
    let mut thread = ThreadAttachment::new();
    guard.init_runtime(&mut thread);
    let plan = guard.init_runtime(&mut thread);
    assert!(!plan.create_runtime);
    assert!(!plan.attach_thread);
}

#[test]
fn test_new_thread_attaches_without_recreating() {
    let mut guard = RuntimeGuard::new();
    let mut first = ThreadAttachment::new();
    guard.init_runtime(&mut first);
    let mut second = ThreadAttachment::new();
    let plan = guard.init_runtime(&mut second);
    assert!(!plan.create_runtime);
    assert!(plan.attach_thread);
}
