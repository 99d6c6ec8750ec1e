use dualsense::dispatch::Dispatcher;
use dualsense::property::{ComboProperty, InputProperty, PropertyKind, ValueType};
use dualsense::values::{DPad, Trigger};

fn report_with(bytes: &[(usize, u8)]) -> [u8; 64] {
    let mut r = [0u8; 64];
    for &(i, b) in bytes {
        r[i] = b;
    }
    r
}

#[test]
fn first_report_notifies_new_subscriber_once() {
    let mut d = Dispatcher::new();
    d.subscribe(PropertyKind::Input(InputProperty::L1), 0);
    let n = d.dispatch(&report_with(&[]));
    assert_eq!(n.len(), 1);
    assert_eq!(n[0].kind, PropertyKind::Input(InputProperty::L1));
    assert_eq!(n[0].value, ValueType::Bool(false));
    assert_eq!(n[0].subscribers, vec![0]);
}

#[test]
fn identical_report_is_silent() {
    let mut d = Dispatcher::new();
    d.subscribe(PropertyKind::Input(InputProperty::GyroscopeX), 0);
    d.subscribe(PropertyKind::Combo(ComboProperty::DPad(DPad::Up)), 1);
    let r = report_with(&[(16, 9), (8, 3)]);
    assert_eq!(d.dispatch(&r).len(), 2);
    assert!(d.dispatch(&r).is_empty());
    assert!(d.dispatch(&r).is_empty());
}

#[test]
fn changed_value_notifies_only_that_property() {
    let mut d = Dispatcher::new();
    d.subscribe(PropertyKind::Input(InputProperty::L1), 0);
    d.subscribe(PropertyKind::Input(InputProperty::R1), 1);
    d.dispatch(&report_with(&[]));
    let n = d.dispatch(&report_with(&[(9, 0b10)]));
    assert_eq!(n.len(), 1);
    assert_eq!(n[0].kind, PropertyKind::Input(InputProperty::R1));
    assert_eq!(n[0].value, ValueType::Bool(true));
    assert_eq!(n[0].subscribers, vec![1]);
    let n = d.dispatch(&report_with(&[]));
    assert_eq!(n.len(), 1);
    assert_eq!(n[0].value, ValueType::Bool(false));
}

#[test]
fn subscribers_in_registration_order() {
    let mut d = Dispatcher::new();
    d.subscribe(PropertyKind::Input(InputProperty::Mute), 4);
    d.subscribe(PropertyKind::Input(InputProperty::Mute), 2);
    d.subscribe(PropertyKind::Input(InputProperty::Mute), 7);
    let n = d.dispatch(&report_with(&[(10, 0b100)]));
    assert_eq!(n.len(), 1);
    assert_eq!(n[0].subscribers, vec![4, 2, 7]);
    assert_eq!(n[0].value, ValueType::Bool(true));
}

#[test]
fn combo_keys_share_an_entry_whatever_their_payload() {
    let mut d = Dispatcher::new();
    d.subscribe(PropertyKind::Combo(ComboProperty::LT(Trigger::new(5))), 0);
    d.subscribe(PropertyKind::Combo(ComboProperty::LT(Trigger::new(0))), 1);
    let n = d.dispatch(&report_with(&[(5, 200)]));
    assert_eq!(n.len(), 1);
    assert_eq!(n[0].kind, PropertyKind::Combo(ComboProperty::LT(Trigger::new(0))));
    assert_eq!(n[0].value, ValueType::Combo(ComboProperty::LT(Trigger::new(200))));
    assert_eq!(n[0].subscribers, vec![0, 1]);
}

#[test]
fn late_subscriber_hears_only_changes() {
    let mut d = Dispatcher::new();
    d.subscribe(PropertyKind::Input(InputProperty::TouchPad1Id), 0);
    let r = report_with(&[(33, 3)]);
    d.dispatch(&r);
    d.subscribe(PropertyKind::Input(InputProperty::TouchPad1Id), 1);
    assert!(d.dispatch(&r).is_empty());
    let n = d.dispatch(&report_with(&[(33, 4)]));
    assert_eq!(n.len(), 1);
    assert_eq!(n[0].subscribers, vec![0, 1]);
    assert_eq!(n[0].value, ValueType::U8(4));
}

#[test]
fn empty_table_notifies_nobody() {
    let mut d = Dispatcher::new();
    assert!(d.dispatch(&report_with(&[(1, 1)])).is_empty());
}

#[test]
fn short_or_failed_read_changes_nothing() {
    let mut d = Dispatcher::new();
    d.subscribe(PropertyKind::Input(InputProperty::L1), 0);
    let r = report_with(&[(9, 1)]);
    assert!(d.packet_received(None, &r).is_empty());
    assert!(d.packet_received(Some(10), &r).is_empty());
    assert!(d.packet_received(Some(0), &r).is_empty());
    let n = d.packet_received(Some(64), &r);
    assert_eq!(n.len(), 1);
    assert_eq!(n[0].value, ValueType::Bool(true));
    assert!(d.packet_received(Some(64), &r).is_empty());
}
