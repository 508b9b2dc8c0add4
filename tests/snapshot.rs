use hrm_bridge::reading::{HrData, HrmState};
use hrm_bridge::snapshot::{template_values, ChannelTransferObject, CsvBuffer, OptionalTemplateName, TemplateValues};

#[test]
fn csv_keeps_connected_points() {
    let mut b = CsvBuffer::new();
    assert!(b.needs_header());
    b.record(&ChannelTransferObject::initial(1));
    b.record(&ChannelTransferObject::of_state(2, HrmState::Disconnected));
    let d = HrData { hr: 71, contact_ok: None, battery: None };
    b.record(&ChannelTransferObject::of_state(3, HrmState::Connected(d)));
    assert_eq!(b.pending(), &vec![(3, 71)]);
    b.header_saved();
    assert!(!b.needs_header());
    b.saved();
    assert!(b.pending().is_empty());
    assert!(!b.needs_header());
}

#[test]
fn template_name_defaults() {
    assert_eq!(OptionalTemplateName { name: None }.template_name(), "default.html");
    assert_eq!(OptionalTemplateName { name: Some("ws.html".to_owned()) }.template_name(), "ws.html");
}

#[test]
fn template_values_follow_state() {
    assert_eq!(template_values(&ChannelTransferObject::initial(0)), TemplateValues::Unknown);
    assert_eq!(
        template_values(&ChannelTransferObject::of_state(0, HrmState::Disconnected)),
        TemplateValues::Disconnected
    );
    let d = HrData { hr: 90, contact_ok: Some(true), battery: Some(5) };
    assert_eq!(template_values(&ChannelTransferObject::of_state(0, HrmState::Connected(d))), TemplateValues::Connected(d));
}
