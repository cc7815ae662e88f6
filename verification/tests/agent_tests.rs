use bzmenu::agent::{format_passkey, ConfirmationOutcome, PairingAgent};
use bzmenu::error::BtError;

#[test]
fn confirm_resolves_acceptance_exactly_once() {
    let mut a = PairingAgent::new();
    assert!(a.handle_request("AA:BB:CC:DD:EE:FF".to_string(), 123456, 0).is_ok());
    assert!(a.is_confirmation_required());
    // The confirmation within the window resolves to acceptance...
    assert_eq!(a.resolve_confirm(), Some(ConfirmationOutcome::Accepted));
    assert!(!a.is_confirmation_required());
    // ...and a later reject (or confirm) delivers nothing more.
    assert_eq!(a.resolve_reject(), None);
    assert_eq!(a.resolve_confirm(), None);
    assert!(!a.is_confirmation_required());
}

#[test]
fn timeout_resolves_rejection_and_clears_guard() {
    let mut a = PairingAgent::new();
    a.handle_request("AA:BB:CC:DD:EE:FF".to_string(), 42, 100).unwrap();
    // Just inside the thirty-second window nothing happens.
    assert_eq!(a.check_timeout(129), None);
    assert!(a.is_confirmation_required());
    // At thirty seconds the request resolves to rejection, guard cleared.
    assert_eq!(a.check_timeout(130), Some(ConfirmationOutcome::Rejected));
    assert!(!a.is_confirmation_required());
    // Nothing is pending anymore, so nothing resolves twice.
    assert_eq!(a.check_timeout(1000), None);
    assert_eq!(a.resolve_reject(), None);
}

#[test]
fn second_request_is_rejected_while_one_is_pending() {
    let mut a = PairingAgent::new();
    a.handle_request("AA:AA:AA:AA:AA:AA".to_string(), 111111, 0).unwrap();
    let second = a.handle_request("BB:BB:BB:BB:BB:BB".to_string(), 222222, 1);
    assert_eq!(second, Err(BtError::ConfirmationAlreadyPending));
    // The first request is preserved untouched.
    let pending = a.pending_request().unwrap();
    assert_eq!(pending.device_address, "AA:AA:AA:AA:AA:AA");
    assert_eq!(pending.passkey, 111111);
    assert_eq!(pending.requested_at, 0);
}

#[test]
fn reject_resolves_rejection() {
    let mut a = PairingAgent::new();
    a.handle_request("CC:CC:CC:CC:CC:CC".to_string(), 7, 0).unwrap();
    assert_eq!(a.resolve_reject(), Some(ConfirmationOutcome::Rejected));
    assert!(!a.is_confirmation_required());
    assert_eq!(a.resolve_confirm(), None);
}

#[test]
fn resolution_with_nothing_pending_is_a_no_op() {
    let mut a = PairingAgent::new();
    assert_eq!(a.resolve_confirm(), None);
    assert_eq!(a.resolve_reject(), None);
    assert_eq!(a.check_timeout(12345), None);
    assert!(!a.is_confirmation_required());
}

#[test]
fn passkeys_render_as_six_zero_padded_digits() {
    assert_eq!(format_passkey(0), "000000");
    assert_eq!(format_passkey(7), "000007");
    assert_eq!(format_passkey(1234), "001234");
    assert_eq!(format_passkey(123456), "123456");
    assert_eq!(format_passkey(999999), "999999");
}
