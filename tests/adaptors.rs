use hrm_bridge::adaptors::{
    battery_to_read, describe, heart_rate_claim, info_label, match_order, match_verdict, notifiable,
    AdaptorKind, AttemptOutcome, CharacteristicInfo, InfoField, InfoLabel, MatchVerdict,
    DEVICE_INFORMATION_SERVICE,
};
use hrm_bridge::config::HwAddr;
use hrm_bridge::reading::{BATTERY_LEVEL_CHARACTERISTIC, HEART_RATE_MEASUREMENT_CHARACTERISTIC, HEART_RATE_SERVICE};

fn ch(uuid: u128, notify: bool) -> CharacteristicInfo {
    CharacteristicInfo { uuid, notify }
}

#[test]
fn recorded_variant_tried_first() {
    assert_eq!(match_order(Some(1)), vec![AdaptorKind::HeartRateProfile, AdaptorKind::HeartRateProfile]);
    assert_eq!(match_order(Some(9)), vec![AdaptorKind::HeartRateProfile]);
    assert_eq!(match_order(None), vec![AdaptorKind::HeartRateProfile]);
}

#[test]
fn matching_stops_at_first_claim_or_failure() {
    let order = vec![AdaptorKind::HeartRateProfile, AdaptorKind::HeartRateProfile];
    assert_eq!(match_verdict(&order, &vec![]), MatchVerdict::Try(AdaptorKind::HeartRateProfile));
    assert_eq!(match_verdict(&order, &vec![AttemptOutcome::NoMatch]), MatchVerdict::Try(AdaptorKind::HeartRateProfile));
    assert_eq!(match_verdict(&order, &vec![AttemptOutcome::NoMatch, AttemptOutcome::Matched]), MatchVerdict::Matched(1));
    assert_eq!(match_verdict(&order, &vec![AttemptOutcome::Failed]), MatchVerdict::Failed(0));
    assert_eq!(match_verdict(&order, &vec![AttemptOutcome::NoMatch, AttemptOutcome::NoMatch]), MatchVerdict::NoMatch);
}

#[test]
fn claim_needs_service_and_notifying_measurement() {
    let chars = vec![ch(HEART_RATE_MEASUREMENT_CHARACTERISTIC, true)];
    assert!(heart_rate_claim(&vec![], &chars, None).is_none());
    let services = vec![HEART_RATE_SERVICE];
    assert!(heart_rate_claim(&services, &vec![ch(HEART_RATE_MEASUREMENT_CHARACTERISTIC, false)], None).is_none());
    let claim = heart_rate_claim(&services, &chars, None).unwrap();
    assert_eq!(claim.subscriptions, vec![0]);
    assert_eq!(claim.initial_battery, None);
}

#[test]
fn claim_with_battery() {
    let services = vec![0x42, HEART_RATE_SERVICE];
    let chars = vec![
        ch(HEART_RATE_MEASUREMENT_CHARACTERISTIC, false),
        ch(BATTERY_LEVEL_CHARACTERISTIC, false),
        ch(HEART_RATE_MEASUREMENT_CHARACTERISTIC, true),
    ];
    assert_eq!(battery_to_read(&services, &chars), Some(1));
    assert_eq!(battery_to_read(&vec![], &chars), None);
    let claim = heart_rate_claim(&services, &chars, Some(vec![77])).unwrap();
    assert_eq!(claim.subscriptions, vec![1, 2]);
    assert_eq!(claim.initial_battery, Some(77));
    let unread = heart_rate_claim(&services, &chars, None).unwrap();
    assert_eq!(unread.subscriptions, vec![2]);
    let empty = heart_rate_claim(&services, &chars, Some(vec![])).unwrap();
    assert_eq!(empty.initial_battery, Some(0));
}

#[test]
fn registry_entry_of_claimed_device() {
    let h = describe(&"Polar H10".to_owned(), HwAddr(0xA0B1C2D3E4F5), AdaptorKind::HeartRateProfile);
    assert_eq!(h.name, "Polar H10");
    assert_eq!(h.mac, HwAddr(0xA0B1C2D3E4F5));
    assert_eq!(h.adaptor_id, Some(1));
    assert_eq!(AdaptorKind::Debug.id(), 0);
}

#[test]
fn debug_variant_subscribes_notifying() {
    let chars = vec![ch(1, true), ch(2, false), ch(3, true)];
    assert_eq!(notifiable(&chars), vec![0, 2]);
}

#[test]
fn device_information_labels() {
    let model = 0x00002a24_0000_1000_8000_00805f9b34fb;
    assert_eq!(info_label(DEVICE_INFORMATION_SERVICE, model), InfoLabel::Field(InfoField::ModelNumber));
    assert_eq!(InfoField::ModelNumber.caption(), "Model Number");
    assert_eq!(info_label(DEVICE_INFORMATION_SERVICE, 0x00002a50_0000_1000_8000_00805f9b34fb), InfoLabel::Hidden);
    assert_eq!(info_label(DEVICE_INFORMATION_SERVICE, 0x00002a99_0000_1000_8000_00805f9b34fb), InfoLabel::Unknown);
    assert_eq!(info_label(HEART_RATE_SERVICE, model), InfoLabel::Other);
}
