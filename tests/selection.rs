use hrm_bridge::config::{Args, Hrm, HwAddr};
use hrm_bridge::selection::{
    choose_automatically, order_candidates, parse_choice, parse_decimal_u8, prompt_timeout_secs,
    selection_filter, Candidate, Choice, UNKNOWN_NAME,
};

fn args() -> Args {
    Args {
        enable_http_server: None,
        http_port: None,
        enable_csv_log: None,
        accept_new_device: false,
        hrm_mac: None,
        hrm_index: None,
        pin_device: false,
        noninteractive_rescan: false,
        debug_device: false,
    }
}

fn hrm(name: &str, mac: u64) -> Hrm {
    Hrm { name: name.to_owned(), mac: HwAddr(mac), adaptor_id: Some(1) }
}

fn cand(name: &str, mac: u64, is_known: bool, filtered: bool) -> Candidate {
    Candidate { name: name.to_owned(), addr: HwAddr(mac), is_known, filtered }
}

#[test]
fn auto_mode_picks_filtered_candidate() {
    let c = vec![cand("A", 1, false, true), cand("B", 2, true, false)];
    assert_eq!(choose_automatically(&c, true), Some(0));
}

#[test]
fn manual_mode_picks_known_candidate() {
    let c = vec![cand("A", 1, false, true), cand("B", 2, true, false)];
    assert_eq!(choose_automatically(&c, false), Some(1));
}

#[test]
fn no_automatic_pick_asks_user() {
    let c = vec![cand("A", 1, false, false), cand("B", 2, false, false)];
    assert_eq!(choose_automatically(&c, true), None);
    assert_eq!(choose_automatically(&c, false), None);
    assert_eq!(choose_automatically(&vec![], false), None);
}

#[test]
fn pinned_device_wins_filter() {
    let mut a = args();
    a.pin_device = true;
    a.accept_new_device = true;
    a.hrm_mac = Some(HwAddr(7));
    assert_eq!(selection_filter(&a, Some(HwAddr(3)), &vec![]), Some(HwAddr(3)));
    assert_eq!(selection_filter(&a, None, &vec![]), Some(HwAddr(7)));
}

#[test]
fn index_filter_is_one_based() {
    let reg = vec![hrm("a", 10), hrm("b", 20)];
    let mut a = args();
    a.hrm_index = Some(2);
    assert_eq!(selection_filter(&a, None, &reg), Some(HwAddr(20)));
    a.hrm_index = Some(3);
    assert_eq!(selection_filter(&a, None, &reg), None);
    a.hrm_index = Some(0);
    assert_eq!(selection_filter(&a, None, &reg), None);
    a.hrm_index = Some(1);
    a.accept_new_device = true;
    assert_eq!(selection_filter(&a, None, &reg), Some(HwAddr(10)));
}

#[test]
fn requested_address_wins_over_index() {
    let reg = vec![hrm("a", 10), hrm("b", 20)];
    let mut a = args();
    a.hrm_mac = Some(HwAddr(99));
    assert_eq!(selection_filter(&a, None, &reg), Some(HwAddr(99)));
    a.hrm_index = Some(2);
    assert_eq!(selection_filter(&a, None, &reg), Some(HwAddr(99)));
    a.accept_new_device = true;
    assert_eq!(selection_filter(&a, None, &reg), Some(HwAddr(99)));
    a.pin_device = true;
    assert_eq!(selection_filter(&a, Some(HwAddr(5)), &reg), Some(HwAddr(5)));
    a.pin_device = false;
    a.hrm_mac = None;
    assert_eq!(selection_filter(&a, Some(HwAddr(5)), &reg), Some(HwAddr(20)));
    a.hrm_index = None;
    assert_eq!(selection_filter(&a, None, &reg), None);
}

#[test]
fn candidate_flags() {
    let reg = vec![hrm("a", 10)];
    let c = Candidate::new(None, HwAddr(10), Some(HwAddr(10)), &reg);
    assert_eq!(c.name, UNKNOWN_NAME);
    assert!(c.is_known);
    assert!(c.filtered);
    let d = Candidate::new(Some("Polar".to_owned()), HwAddr(11), Some(HwAddr(10)), &reg);
    assert_eq!(d.name, "Polar");
    assert!(!d.is_known);
    assert!(!d.filtered);
}

#[test]
fn candidates_ordered_by_filter_registry_and_name() {
    let reg = vec![hrm("x", 30), hrm("y", 20)];
    let c = vec![
        cand("zeta", 1, false, false),
        cand("Alpha", 2, false, false),
        cand("known-second", 20, true, false),
        cand("known-first", 30, true, false),
        cand("preferred", 5, false, true),
        cand("alpha", 3, false, false),
    ];
    assert_eq!(order_candidates(&c, &reg), vec![4, 3, 2, 1, 5, 0]);
}

#[test]
fn ordering_is_case_insensitive() {
    let c = vec![cand("b", 1, false, false), cand("A", 2, false, false), cand("C", 3, false, false)];
    assert_eq!(order_candidates(&c, &vec![]), vec![1, 0, 2]);
}

#[test]
fn decimal_parsing() {
    assert_eq!(parse_decimal_u8("0"), Some(0));
    assert_eq!(parse_decimal_u8("255"), Some(255));
    assert_eq!(parse_decimal_u8("+7"), Some(7));
    assert_eq!(parse_decimal_u8("007"), Some(7));
    assert_eq!(parse_decimal_u8("256"), None);
    assert_eq!(parse_decimal_u8("99999"), None);
    assert_eq!(parse_decimal_u8(""), None);
    assert_eq!(parse_decimal_u8("+"), None);
    assert_eq!(parse_decimal_u8("-1"), None);
    assert_eq!(parse_decimal_u8("1a"), None);
    assert_eq!(parse_decimal_u8(" 1"), None);
}

#[test]
fn prompt_answers() {
    assert_eq!(parse_choice("r", 3), Choice::Rescan);
    assert_eq!(parse_choice("1", 3), Choice::Pick(0));
    assert_eq!(parse_choice("3", 3), Choice::Pick(2));
    assert_eq!(parse_choice("4", 3), Choice::Invalid);
    assert_eq!(parse_choice("0", 3), Choice::Invalid);
    assert_eq!(parse_choice("rr", 3), Choice::Invalid);
    assert_eq!(parse_choice("x", 3), Choice::Invalid);
}

#[test]
fn prompt_timeout_only_on_noninteractive_reconnect() {
    assert_eq!(prompt_timeout_secs(true, true), Some(1));
    assert_eq!(prompt_timeout_secs(true, false), None);
    assert_eq!(prompt_timeout_secs(false, true), None);
}
