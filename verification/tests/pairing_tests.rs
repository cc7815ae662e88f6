use bzmenu::pairing::{
    connection_failure_out_of_range, ConnectAction, ConnectFlow, ConnectOutcome, ConnectStage,
};

#[test]
fn unpaired_device_pairs_first() {
    let (flow, action) = ConnectFlow::begin(false);
    assert_eq!(action, ConnectAction::Pair);
    assert_eq!(flow.current_stage(), ConnectStage::AwaitingPairResult);
}

#[test]
fn pairing_failure_never_reaches_connect() {
    let (mut flow, action) = ConnectFlow::begin(false);
    assert_eq!(action, ConnectAction::Pair);
    // The pairing primitive failed: no further action is handed out, so the
    // underlying connect primitive is never invoked.
    let next = flow.on_pair_result(false);
    assert_eq!(next, None);
    assert_eq!(
        flow.current_stage(),
        ConnectStage::Complete(ConnectOutcome::PairingFailed)
    );
}

#[test]
fn paired_device_skips_pairing() {
    let (mut flow, action) = ConnectFlow::begin(true);
    assert_eq!(action, ConnectAction::Connect);
    assert_eq!(flow.current_stage(), ConnectStage::AwaitingConnectResult);
    flow.on_connect_result(true, false);
    assert_eq!(
        flow.current_stage(),
        ConnectStage::Complete(ConnectOutcome::Connected)
    );
}

#[test]
fn successful_pairing_proceeds_to_connect() {
    let (mut flow, _) = ConnectFlow::begin(false);
    let next = flow.on_pair_result(true);
    assert_eq!(next, Some(ConnectAction::Connect));
    assert_eq!(flow.current_stage(), ConnectStage::AwaitingConnectResult);
}

#[test]
fn out_of_range_is_derived_from_the_transport_text() {
    assert!(connection_failure_out_of_range("le-connection-abort-by-local: Page Timeout"));
    assert!(connection_failure_out_of_range("Page Timeout"));
    assert!(!connection_failure_out_of_range("Connection refused"));
    assert!(!connection_failure_out_of_range("page timeout"));
    assert!(!connection_failure_out_of_range(""));
}

#[test]
fn connection_failures_are_classified() {
    let (mut flow, _) = ConnectFlow::begin(true);
    flow.on_connect_result(false, true);
    assert_eq!(
        flow.current_stage(),
        ConnectStage::Complete(ConnectOutcome::OutOfRange)
    );

    let (mut flow2, _) = ConnectFlow::begin(true);
    flow2.on_connect_result(false, false);
    assert_eq!(
        flow2.current_stage(),
        ConnectStage::Complete(ConnectOutcome::ConnectionFailed)
    );
}
