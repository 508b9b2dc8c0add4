use hrm_bridge::shutdown::{Component, ShutdownRegistry};

#[test]
fn two_hooks_both_started() {
    let mut r = ShutdownRegistry::new();
    assert!(r.register(Component::HeartRateManager));
    assert!(r.register(Component::CsvLogger));
    assert_eq!(r.terminate(), vec![Component::HeartRateManager, Component::CsvLogger]);
}

#[test]
fn second_registration_rejected() {
    let mut r = ShutdownRegistry::new();
    assert!(r.register(Component::CsvLogger));
    assert!(!r.register(Component::CsvLogger));
    assert_eq!(r.terminate(), vec![Component::CsvLogger]);
}

#[test]
fn termination_happens_once() {
    let mut r = ShutdownRegistry::new();
    r.register(Component::HeartRateManager);
    assert_eq!(r.terminate().len(), 1);
    assert!(r.terminate().is_empty());
    assert!(!r.register(Component::CsvLogger));
}
