use hrm_bridge::manager::{next_actions, ClaimOutcome, ManagerAction, ManagerEvent};

#[test]
fn failed_scan_retries_after_delay() {
    assert_eq!(next_actions(ManagerEvent::ScanFailed, false), vec![ManagerAction::Wait, ManagerAction::Scan]);
    assert_eq!(next_actions(ManagerEvent::Scanned { count: 0 }, false), vec![ManagerAction::Wait, ManagerAction::Scan]);
}

#[test]
fn found_devices_are_offered() {
    assert_eq!(next_actions(ManagerEvent::Scanned { count: 2 }, false), vec![ManagerAction::Choose]);
    assert_eq!(next_actions(ManagerEvent::Chosen { picked: true }, false), vec![ManagerAction::Connect]);
    assert_eq!(next_actions(ManagerEvent::Chosen { picked: false }, false), vec![ManagerAction::Scan]);
}

#[test]
fn connected_device_is_claimed_or_debugged() {
    assert_eq!(next_actions(ManagerEvent::ConnectFinished { ok: true }, false), vec![ManagerAction::Claim]);
    assert_eq!(next_actions(ManagerEvent::ConnectFinished { ok: true }, true), vec![ManagerAction::RunDebugSession]);
    assert_eq!(next_actions(ManagerEvent::ConnectFinished { ok: false }, true), vec![ManagerAction::Scan]);
}

#[test]
fn new_device_is_registered_before_its_session() {
    assert_eq!(
        next_actions(ManagerEvent::ClaimFinished(ClaimOutcome::Claimed { is_known: false }), false),
        vec![ManagerAction::Register, ManagerAction::RunSession]
    );
    assert_eq!(
        next_actions(ManagerEvent::ClaimFinished(ClaimOutcome::Claimed { is_known: true }), false),
        vec![ManagerAction::RunSession]
    );
    assert_eq!(next_actions(ManagerEvent::ClaimFinished(ClaimOutcome::Failed), false), vec![ManagerAction::Scan]);
    assert_eq!(next_actions(ManagerEvent::ClaimFinished(ClaimOutcome::NoMatch), false), vec![ManagerAction::Scan]);
}

#[test]
fn ended_session_scans_again() {
    assert_eq!(next_actions(ManagerEvent::SessionEnded, false), vec![ManagerAction::Scan]);
}
