use hrm_bridge::reading::{HrData, HrmState, HEART_RATE_MEASUREMENT_CHARACTERISTIC};
use hrm_bridge::session::{Session, SessionAction, SessionEvent, SessionPhase};

fn live_session() -> Session {
    let mut s = Session::new(Some(80));
    let a = s.handle(SessionEvent::Subscribed);
    assert_eq!(a, vec![SessionAction::StartNotifications, SessionAction::PollLiveness]);
    s
}

#[test]
fn new_session_subscribes() {
    let s = Session::new(None);
    assert_eq!(s.phase, SessionPhase::Subscribing);
    assert_eq!(s.reading, HrmState::Disconnected);
}

#[test]
fn subscribe_failure_discards_session() {
    let mut s = Session::new(None);
    assert_eq!(s.handle(SessionEvent::SubscribeFailed), vec![SessionAction::ReportFailure]);
    assert_eq!(s.phase, SessionPhase::Failed);
    assert!(s.handle(SessionEvent::Liveness { connected: false }).is_empty());
}

#[test]
fn liveness_ok_keeps_polling() {
    let mut s = live_session();
    assert_eq!(s.handle(SessionEvent::Liveness { connected: true }), vec![SessionAction::PollLiveness]);
    assert_eq!(s.phase, SessionPhase::Active);
}

#[test]
fn notification_publishes_reading() {
    let mut s = live_session();
    let a = s.handle(SessionEvent::Notification {
        characteristic: HEART_RATE_MEASUREMENT_CHARACTERISTIC,
        payload: vec![0, 66],
    });
    let expected = HrmState::Connected(HrData { hr: 66, contact_ok: None, battery: Some(80) });
    assert_eq!(a, vec![SessionAction::Publish(expected)]);
    assert_eq!(s.reading, expected);
}

#[test]
fn reconnect_success_keeps_state() {
    let mut s = live_session();
    s.handle(SessionEvent::Notification { characteristic: HEART_RATE_MEASUREMENT_CHARACTERISTIC, payload: vec![0, 66] });
    assert_eq!(s.handle(SessionEvent::Liveness { connected: false }), vec![SessionAction::Reconnect]);
    assert_eq!(s.phase, SessionPhase::Reconnecting);
    assert_eq!(s.handle(SessionEvent::ReconnectFinished { ok: true }), vec![SessionAction::PollLiveness]);
    assert_eq!(s.phase, SessionPhase::Active);
    assert_eq!(s.reading, HrmState::Connected(HrData { hr: 66, contact_ok: None, battery: Some(80) }));
}

#[test]
fn failed_reconnect_tears_down_once() {
    let mut s = live_session();
    s.handle(SessionEvent::Liveness { connected: false });
    let a = s.handle(SessionEvent::ReconnectFinished { ok: false });
    assert_eq!(
        a,
        vec![
            SessionAction::StopNotifications,
            SessionAction::UnsubscribeAll,
            SessionAction::Publish(HrmState::Disconnected),
            SessionAction::Disconnect,
        ]
    );
    assert_eq!(s.phase, SessionPhase::Terminated);
    assert_eq!(s.reading, HrmState::Disconnected);
    assert!(s.handle(SessionEvent::ReconnectFinished { ok: false }).is_empty());
    assert!(s.handle(SessionEvent::Liveness { connected: false }).is_empty());
    assert!(s
        .handle(SessionEvent::Notification { characteristic: HEART_RATE_MEASUREMENT_CHARACTERISTIC, payload: vec![0, 1] })
        .is_empty());
}

#[test]
fn unexpected_events_change_nothing() {
    let mut s = live_session();
    assert!(s.handle(SessionEvent::ReconnectFinished { ok: true }).is_empty());
    assert!(s.handle(SessionEvent::Subscribed).is_empty());
    assert_eq!(s.phase, SessionPhase::Active);
}
