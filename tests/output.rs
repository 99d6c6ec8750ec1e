use dualsense::output::{OutputCache, OutputProperty};
use dualsense::values::TriggerEffect;

const FIELDS: [OutputProperty; 21] = [
    OutputProperty::Red,
    OutputProperty::Green,
    OutputProperty::Blue,
    OutputProperty::RightEffectMode,
    OutputProperty::RightEffectParameter1,
    OutputProperty::RightEffectParameter2,
    OutputProperty::RightEffectParameter3,
    OutputProperty::RightEffectParameter4,
    OutputProperty::RightEffectParameter5,
    OutputProperty::RightEffectParameter6,
    OutputProperty::RightEffectParameter7,
    OutputProperty::LeftEffectMode,
    OutputProperty::LeftEffectParameter1,
    OutputProperty::LeftEffectParameter2,
    OutputProperty::LeftEffectParameter3,
    OutputProperty::LeftEffectParameter4,
    OutputProperty::LeftEffectParameter5,
    OutputProperty::LeftEffectParameter6,
    OutputProperty::LeftEffectParameter7,
    OutputProperty::PlayerLight,
    OutputProperty::Mute,
];

#[test]
fn player_three_sets_byte_44() {
    let mut c = OutputCache::new();
    c.set_player_number(3);
    let r = c.flush().unwrap();
    assert_eq!(r[44], 0x15);
}

#[test]
fn player_nine_is_ignored() {
    let mut c = OutputCache::new();
    c.set_player_number(9);
    assert!(!c.is_dirty());
    assert!(c.flush().is_none());
    c.set_player_number(2);
    c.flush();
    c.set_player_number(9);
    assert!(!c.is_dirty());
    assert_eq!(c.write()[44], 0x0A);
}

#[test]
fn player_patterns() {
    let expected = [0x00u8, 0x04, 0x0A, 0x15, 0x1B, 0x10];
    for (n, p) in expected.iter().enumerate() {
        let mut c = OutputCache::new();
        c.set_player_number(n as u8);
        assert!(c.is_dirty());
        assert_eq!(c.write()[44], *p);
    }
}

#[test]
fn empty_report_has_header_only() {
    let c = OutputCache::new();
    let r = c.write();
    assert_eq!(r.len(), 48);
    for (i, b) in r.iter().enumerate() {
        let expected = match i {
            0 => 0x02,
            1 => 0xFF,
            2 => 0xF7,
            40 | 41 => 0x02,
            _ => 0,
        };
        assert_eq!(*b, expected, "byte {}", i);
    }
}

#[test]
fn every_field_round_trips() {
    for (k, f) in FIELDS.iter().enumerate() {
        let v = 0x30 + k as u8;
        let mut c = OutputCache::new();
        c.set(*f, v);
        let r = c.flush().unwrap();
        assert_eq!(r[f.byte()], v);
        let others = r.iter().enumerate().filter(|(i, b)| *i != f.byte() && **b != 0).count();
        assert_eq!(others, 5);
    }
}

#[test]
fn field_offsets() {
    let offsets: Vec<usize> = FIELDS.iter().map(|f| f.byte()).collect();
    assert_eq!(
        offsets,
        vec![45, 46, 47, 11, 12, 13, 14, 15, 16, 17, 18, 22, 23, 24, 25, 26, 27, 28, 29, 44, 9]
    );
}

#[test]
fn flush_only_when_changed() {
    let mut c = OutputCache::new();
    assert!(c.flush().is_none());
    c.set_light_red(10);
    c.set_light_green(20);
    c.set_light_blue(30);
    assert!(c.is_dirty());
    let r = c.flush().unwrap();
    assert_eq!((r[45], r[46], r[47]), (10, 20, 30));
    assert!(!c.is_dirty());
    assert!(c.flush().is_none());
    c.set_light_red(11);
    let r = c.flush().unwrap();
    assert_eq!((r[45], r[46], r[47]), (11, 20, 30));
}

#[test]
fn trigger_effects_and_parameters() {
    let mut c = OutputCache::new();
    c.set_left_trigger_effect(TriggerEffect::Mode1_4_20);
    c.set_left_start_of_resistance(1);
    c.set_left_param2(2);
    c.set_left_param3(3);
    c.set_left_param4(4);
    c.set_left_param5(5);
    c.set_left_param6(6);
    c.set_left_param7(7);
    c.set_right_trigger_effect(TriggerEffect::Calibration);
    c.set_right_start_of_resistance(11);
    c.set_right_param2(12);
    c.set_right_param3(13);
    c.set_right_param4(14);
    c.set_right_param5(15);
    c.set_right_param6(16);
    c.set_right_param7(17);
    let r = c.flush().unwrap();
    assert_eq!(r[22..30].to_vec(), vec![0x25, 1, 2, 3, 4, 5, 6, 7]);
    assert_eq!(r[11..19].to_vec(), vec![0xFC, 11, 12, 13, 14, 15, 16, 17]);
}

#[test]
fn mute_light() {
    let mut c = OutputCache::new();
    c.set_mute(true);
    assert_eq!(c.flush().unwrap()[9], 1);
    c.set_mute(false);
    assert_eq!(c.flush().unwrap()[9], 0);
}
