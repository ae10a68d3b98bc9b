use lanclip::guard::EchoGuard;

#[test]
fn new_guard_is_not_armed() {
    let mut guard = EchoGuard::new();
    assert!(!guard.is_armed());
    assert!(!guard.test_and_clear());
    let mut guard = EchoGuard::default();
    assert!(!guard.test_and_clear());
}

#[test]
fn armed_guard_reports_once() {
    let mut guard = EchoGuard::new();
    guard.arm();
    assert!(guard.is_armed());
    assert!(guard.test_and_clear());
    assert!(!guard.test_and_clear());
    assert!(!guard.is_armed());
}

#[test]
fn arming_twice_swallows_one_change() {
    let mut guard = EchoGuard::new();
    guard.arm();
    guard.arm();
    assert!(guard.test_and_clear());
    assert!(!guard.test_and_clear());
}

#[test]
fn guards_are_independent() {
    let mut one = EchoGuard::new();
    let mut other = EchoGuard::new();
    one.arm();
    assert!(!other.test_and_clear());
    assert!(one.test_and_clear());
}
