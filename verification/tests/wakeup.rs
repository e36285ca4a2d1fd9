use dactyl_rs::wakeup::WakeupSignal;

#[test]
fn new_signal_is_not_raised() {
    let mut signal = WakeupSignal::new();
    assert!(!signal.is_raised());
    assert!(!signal.take());
    assert!(!signal.is_raised());
}

#[test]
fn raised_signal_is_taken_once() {
    let mut signal = WakeupSignal::new();
    signal.raise();
    assert!(signal.is_raised());
    assert!(signal.is_raised());
    assert!(signal.take());
    assert!(!signal.is_raised());
    assert!(!signal.take());
}

#[test]
fn two_raises_are_one_wakeup() {
    let mut signal = WakeupSignal::new();
    signal.raise();
    signal.raise();
    assert!(signal.take());
    assert!(!signal.take());
    signal.raise();
    assert!(signal.take());
    assert!(!signal.take());
}
