use bzmenu::scanner::{ScanStartOutcome, ScanStopOutcome, Scanner};

#[test]
fn start_sets_flag_and_deadline() {
    let mut s = Scanner::new();
    assert!(s.is_discovery_completed());
    let r = s.start_discovery(0, 10);
    assert_eq!(r, ScanStartOutcome::Started);
    assert!(!s.is_discovery_completed());
}

#[test]
fn start_while_scanning_is_a_no_op() {
    let mut s = Scanner::new();
    assert_eq!(s.start_discovery(0, 10), ScanStartOutcome::Started);
    // A second start must not restart the window or schedule a second timer.
    assert_eq!(s.start_discovery(5, 100), ScanStartOutcome::AlreadyScanning);
    // The original ten-second deadline still governs: the flag clears at 10.
    assert!(!s.timer_expired(9));
    assert!(s.timer_expired(10));
    assert!(s.is_discovery_completed());
}

#[test]
fn stop_before_start_is_a_no_op() {
    let mut s = Scanner::new();
    assert_eq!(s.stop_discovery(), ScanStopOutcome::NotScanning);
    assert_eq!(s.stop_discovery(), ScanStopOutcome::NotScanning);
    assert!(s.is_discovery_completed());
}

#[test]
fn flag_clears_at_deadline_and_timer_never_refires() {
    let mut s = Scanner::new();
    s.start_discovery(100, 30);
    assert!(!s.timer_expired(129));
    assert!(!s.is_discovery_completed());
    assert!(s.timer_expired(130));
    assert!(s.is_discovery_completed());
    // Fired once, the timer never fires again and the flag stays false.
    assert!(!s.timer_expired(130));
    assert!(!s.timer_expired(1000));
    assert!(s.is_discovery_completed());
}

#[test]
fn stop_ends_the_session_early() {
    let mut s = Scanner::new();
    s.start_discovery(0, 60);
    assert_eq!(s.stop_discovery(), ScanStopOutcome::Stopped);
    assert!(s.is_discovery_completed());
    // The cancelled timer firing late changes nothing.
    assert!(!s.timer_expired(60));
    assert!(s.is_discovery_completed());
}

#[test]
fn oversized_window_saturates_instead_of_failing() {
    let mut s = Scanner::new();
    assert_eq!(s.start_discovery(u64::MAX - 5, u64::MAX), ScanStartOutcome::Started);
    assert!(!s.is_discovery_completed());
    assert!(!s.timer_expired(u64::MAX - 1));
    assert!(s.timer_expired(u64::MAX));
    assert!(s.is_discovery_completed());
}

#[test]
fn stop_after_natural_expiry_is_safe() {
    let mut s = Scanner::new();
    s.start_discovery(0, 5);
    assert!(s.timer_expired(5));
    assert_eq!(s.stop_discovery(), ScanStopOutcome::NotScanning);
    assert!(s.is_discovery_completed());
}
