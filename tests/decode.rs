use dualsense::location::{extract_bits, Offset};
use dualsense::property::{ComboProperty, InputProperty, PropertyKind, ValueType};
use dualsense::values::{AnalogPad, DPad, DirectionQuadrant, Symbols, Trigger, TriggerEffect};

fn report_with(bytes: &[(usize, u8)]) -> [u8; 64] {
    let mut r = [0u8; 64];
    for &(i, b) in bytes {
        r[i] = b;
    }
    r
}

fn dpad_of_report(r: &[u8; 64]) -> ValueType {
    PropertyKind::Combo(ComboProperty::DPad(DPad::Released)).decode(r)
}

fn symbol_of_report(r: &[u8; 64]) -> ValueType {
    PropertyKind::Combo(ComboProperty::Symbol(Symbols::Released)).decode(r)
}

#[test]
fn dpad_nibbles_clockwise_from_up() {
    let expected = [
        DPad::Up,
        DPad::UpRight,
        DPad::Right,
        DPad::DownRight,
        DPad::Down,
        DPad::DownLeft,
        DPad::Left,
        DPad::UpLeft,
    ];
    for (i, d) in expected.iter().enumerate() {
        assert_eq!(DPad::from(i as u8), *d);
    }
    for v in 8u8..=255 {
        assert_eq!(DPad::from(v), DPad::Released);
    }
}

#[test]
fn symbol_flags() {
    assert_eq!(Symbols::from(1), Symbols::Square);
    assert_eq!(Symbols::from(2), Symbols::Cross);
    assert_eq!(Symbols::from(4), Symbols::Circle);
    assert_eq!(Symbols::from(8), Symbols::Triangle);
    assert_eq!(Symbols::from(0), Symbols::Released);
    assert_eq!(Symbols::from(3), Symbols::Released);
    assert_eq!(Symbols::from(15), Symbols::Released);
}

#[test]
fn dpad_byte_eight_released() {
    let r = report_with(&[(8, 0x08)]);
    assert_eq!(dpad_of_report(&r), ValueType::Combo(ComboProperty::DPad(DPad::Released)));
    assert_eq!(symbol_of_report(&r), ValueType::Combo(ComboProperty::Symbol(Symbols::Released)));
}

#[test]
fn dpad_byte_right_and_square() {
    let r = report_with(&[(8, 0x12)]);
    assert_eq!(dpad_of_report(&r), ValueType::Combo(ComboProperty::DPad(DPad::Right)));
    assert_eq!(symbol_of_report(&r), ValueType::Combo(ComboProperty::Symbol(Symbols::Square)));
}

#[test]
fn dpad_byte_triangle_up_left() {
    let r = report_with(&[(8, 0x87)]);
    assert_eq!(dpad_of_report(&r), ValueType::Combo(ComboProperty::DPad(DPad::UpLeft)));
    assert_eq!(symbol_of_report(&r), ValueType::Combo(ComboProperty::Symbol(Symbols::Triangle)));
}

#[test]
fn touch_coordinates_from_bytes() {
    let data = [0xABu8, 0x3C];
    assert_eq!(InputProperty::TouchPad1X.convert(&data), ValueType::U16(0x0CAB));
    assert_eq!(InputProperty::TouchPad1Y.convert(&data), ValueType::U16(0x3CA));
    assert_eq!(InputProperty::TouchPad2X.convert(&data), ValueType::U16(0x0CAB));
    assert_eq!(InputProperty::TouchPad2Y.convert(&data), ValueType::U16(0x3CA));
}

#[test]
fn touch_coordinates_in_report() {
    let r = report_with(&[(34, 0xAB), (35, 0x3C)]);
    assert_eq!(InputProperty::TouchPad1X.extract(&r), ValueType::U16(0x0CAB));
    let r = report_with(&[(35, 0xAB), (36, 0x3C)]);
    assert_eq!(InputProperty::TouchPad1Y.extract(&r), ValueType::U16(0x3CA));
    let r = report_with(&[(38, 0xAB), (39, 0x3C)]);
    assert_eq!(InputProperty::TouchPad2X.extract(&r), ValueType::U16(0x0CAB));
    let r = report_with(&[(39, 0xAB), (40, 0x3C)]);
    assert_eq!(InputProperty::TouchPad2Y.extract(&r), ValueType::U16(0x3CA));
}

#[test]
fn touch_active_and_id() {
    let r = report_with(&[(33, 0x85), (37, 0x05)]);
    assert_eq!(InputProperty::TouchPadFinger1Active.extract(&r), ValueType::Bool(false));
    assert_eq!(InputProperty::TouchPad1Id.extract(&r), ValueType::U8(5));
    assert_eq!(InputProperty::TouchPadFinger2Active.extract(&r), ValueType::Bool(true));
    assert_eq!(InputProperty::TouchPad2Id.extract(&r), ValueType::U8(5));
}

#[test]
fn motion_little_endian_signed() {
    let r = report_with(&[(16, 0x34), (17, 0x12), (18, 0xFF), (19, 0xFF), (20, 0x00), (21, 0x80)]);
    assert_eq!(InputProperty::GyroscopeX.extract(&r), ValueType::I16(0x1234));
    assert_eq!(InputProperty::GyroscopeY.extract(&r), ValueType::I16(-1));
    assert_eq!(InputProperty::GyroscopeZ.extract(&r), ValueType::I16(-32768));
    let r = report_with(&[(22, 0x01), (24, 0xFF), (25, 0x7F), (27, 0x01)]);
    assert_eq!(InputProperty::AccelerationX.extract(&r), ValueType::I16(1));
    assert_eq!(InputProperty::AccelerationY.extract(&r), ValueType::I16(32767));
    assert_eq!(InputProperty::AccelerationZ.extract(&r), ValueType::I16(256));
}

#[test]
fn button_bits() {
    let r = report_with(&[(9, 0b0101_0011), (10, 0b0000_0101)]);
    assert_eq!(InputProperty::L1.extract(&r), ValueType::Bool(true));
    assert_eq!(InputProperty::R1.extract(&r), ValueType::Bool(true));
    assert_eq!(InputProperty::Share.extract(&r), ValueType::Bool(true));
    assert_eq!(InputProperty::Options.extract(&r), ValueType::Bool(false));
    assert_eq!(InputProperty::L3.extract(&r), ValueType::Bool(true));
    assert_eq!(InputProperty::R3.extract(&r), ValueType::Bool(false));
    assert_eq!(InputProperty::PlayStation.extract(&r), ValueType::Bool(true));
    assert_eq!(InputProperty::TouchPad.extract(&r), ValueType::Bool(false));
    assert_eq!(InputProperty::Mute.extract(&r), ValueType::Bool(true));
    let c = ComboProperty::LB(false).extract(&r);
    assert_eq!(c, ValueType::Combo(ComboProperty::LB(true)));
    let r = report_with(&[(9, 0b1000_0010)]);
    assert_eq!(InputProperty::L1.extract(&r), ValueType::Bool(false));
    assert_eq!(InputProperty::R3.extract(&r), ValueType::Bool(true));
    assert_eq!(ComboProperty::RB(false).extract(&r), ValueType::Combo(ComboProperty::RB(true)));
}

#[test]
fn whole_byte_button_needs_exactly_one() {
    assert_eq!(InputProperty::L1.convert(&[1]), ValueType::Bool(true));
    assert_eq!(InputProperty::L1.convert(&[2]), ValueType::Bool(false));
    assert_eq!(InputProperty::L1.convert(&[0]), ValueType::Bool(false));
}

#[test]
fn trigger_feedback() {
    let r = report_with(&[(42, 0x1A), (43, 0x07)]);
    assert_eq!(InputProperty::R2FeedbackOn.extract(&r), ValueType::Bool(true));
    assert_eq!(InputProperty::R2FeedbackValue.extract(&r), ValueType::U8(0x0A));
    assert_eq!(InputProperty::L2FeedbackOn.extract(&r), ValueType::Bool(false));
    assert_eq!(InputProperty::L2FeedbackValue.extract(&r), ValueType::U8(0x07));
}

#[test]
fn sticks_and_triggers() {
    let r = report_with(&[(1, 10), (2, 200), (3, 127), (4, 128), (5, 77), (6, 255)]);
    assert_eq!(
        ComboProperty::LeftPad(AnalogPad::default()).extract(&r),
        ValueType::Combo(ComboProperty::LeftPad(AnalogPad::new(10, 200)))
    );
    assert_eq!(
        ComboProperty::RightPad(AnalogPad::default()).extract(&r),
        ValueType::Combo(ComboProperty::RightPad(AnalogPad::new(127, 128)))
    );
    assert_eq!(
        ComboProperty::LT(Trigger::default()).extract(&r),
        ValueType::Combo(ComboProperty::LT(Trigger::new(77)))
    );
    assert_eq!(
        PropertyKind::Combo(ComboProperty::RT(Trigger::new(3))).decode(&r),
        ValueType::Combo(ComboProperty::RT(Trigger::new(255)))
    );
}

#[test]
fn bits_are_right_justified() {
    assert_eq!(extract_bits(0b1011_0110, 4, 8), 0b1011);
    assert_eq!(extract_bits(0b1011_0110, 0, 4), 0b0110);
    assert_eq!(extract_bits(0b1011_0110, 1, 3), 0b11);
    assert_eq!(extract_bits(0b1011_0110, 0, 8), 0b1011_0110);
    assert_eq!(extract_bits(0b1011_0110, 7, 8), 1);
    assert_eq!(extract_bits(0b1011_0110, 0, 1), 0);
}

#[test]
fn offsets() {
    assert!(Offset::bytes(16, 18).is_whole_byte());
    assert!(!Offset::bytes(16, 18).is_single_byte());
    assert!(Offset::bit(9, 4).is_single_byte());
    assert!(!Offset::bit(9, 4).is_whole_byte());
    assert_eq!(InputProperty::GyroscopeY.offset(), Offset::bytes(18, 20));
    assert_eq!(ComboProperty::DPad(DPad::Up).offset(), Offset::bits(8, 0, 4));
    assert_eq!(ComboProperty::LT(Trigger::new(1)).offset(), Offset::byte(5));
}

#[test]
fn base_values() {
    assert_eq!(ComboProperty::LT(Trigger::new(9)).base(), ComboProperty::LT(Trigger::new(0)));
    assert_eq!(ComboProperty::DPad(DPad::Left).base(), ComboProperty::DPad(DPad::Released));
    assert_eq!(
        ComboProperty::RightPad(AnalogPad::new(1, 2)).base(),
        ComboProperty::RightPad(AnalogPad::new(0, 0))
    );
    assert_eq!(
        PropertyKind::Combo(ComboProperty::Symbol(Symbols::Cross)).key(),
        PropertyKind::Combo(ComboProperty::Symbol(Symbols::Released))
    );
}

#[test]
fn value_accessors() {
    assert_eq!(ValueType::U8(3).to_u8(), 3);
    assert_eq!(ValueType::U16(300).to_u16(), 300);
    assert_eq!(ValueType::I16(-3).to_i16(), -3);
    assert!(ValueType::Bool(true).to_bool());
    assert_eq!(ValueType::Combo(ComboProperty::DPad(DPad::Down)).to_dpad(), DPad::Down);
    assert_eq!(ValueType::Combo(ComboProperty::Symbol(Symbols::Circle)).to_symbol(), Symbols::Circle);
    assert_eq!(ValueType::Combo(ComboProperty::RT(Trigger::new(4))).to_trigger(), Trigger::new(4));
    assert_eq!(
        ValueType::Combo(ComboProperty::LeftPad(AnalogPad::new(4, 5))).to_analog(),
        AnalogPad::new(4, 5)
    );
    assert_eq!(ComboProperty::DPad(DPad::Up).to_dpad(), DPad::Up);
}

#[test]
fn values_of_other_variants_differ() {
    assert_ne!(ValueType::U8(1), ValueType::U16(1));
    assert_ne!(ValueType::Bool(true), ValueType::U8(1));
    assert_eq!(ValueType::I16(7), ValueType::I16(7));
}

#[test]
fn stick_quadrants() {
    assert!(matches!(AnalogPad::new(127, 127).direction_quadrant(), DirectionQuadrant::DeadZone));
    assert!(matches!(AnalogPad::new(117, 137).direction_quadrant(), DirectionQuadrant::DeadZone));
    assert!(matches!(AnalogPad::new(127, 255).direction_quadrant(), DirectionQuadrant::South));
    assert!(matches!(AnalogPad::new(0, 0).direction_quadrant(), DirectionQuadrant::North));
    assert!(matches!(AnalogPad::new(255, 127).direction_quadrant(), DirectionQuadrant::South));
    assert!(matches!(AnalogPad::new(116, 126).direction_quadrant(), DirectionQuadrant::North));
}

#[test]
fn trigger_effect_bytes() {
    assert_eq!(TriggerEffect::Off.byte(), 0x00);
    assert_eq!(TriggerEffect::Mode1.byte(), 0x01);
    assert_eq!(TriggerEffect::Mode2.byte(), 0x02);
    assert_eq!(TriggerEffect::Mode1_4.byte(), 0x05);
    assert_eq!(TriggerEffect::Mode2_4.byte(), 0x06);
    assert_eq!(TriggerEffect::Mode1_20.byte(), 0x21);
    assert_eq!(TriggerEffect::Mode1_4_20.byte(), 0x25);
    assert_eq!(TriggerEffect::Mode2_4_20.byte(), 0x26);
    assert_eq!(TriggerEffect::Calibration.byte(), 0xFC);
}
