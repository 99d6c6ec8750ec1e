//! The catalogue of input signals: where each sits in the input report and how
//! its bytes turn into a typed value.
use vstd::prelude::*;
use crate::location::{Offset, bit_field, extract, field_bytes};
use crate::values::{AnalogPad, DPad, Symbols, Trigger, dpad_of, symbols_of};

verus! {

/// Length of an input report in bytes.
pub const INPUT_REPORT_LEN: usize = 64;

/// Input signals delivered as plain numbers and flags.
#[derive(Clone, Copy, PartialEq, Eq, Debug, Hash, Structural)]
pub enum InputProperty {
    L1,
    R1,
    L3,
    R3,
    Options,
    Share,
    Mute,
    TouchPad,
    PlayStation,
    GyroscopeX,
    GyroscopeY,
    GyroscopeZ,
    AccelerationX,
    AccelerationY,
    AccelerationZ,
    TouchPadFinger1Active,
    TouchPad1Id,
    TouchPad1X,
    TouchPad1Y,
    TouchPadFinger2Active,
    TouchPad2Id,
    TouchPad2X,
    TouchPad2Y,
    R2FeedbackOn,
    L2FeedbackOn,
    R2FeedbackValue,
    L2FeedbackValue,
}

/// Input signals that carry a structured value and may feed combos. The payload
/// is the decoded value; as a key only the variant matters (see `base`).
#[derive(Clone, Copy, PartialEq, Eq, Debug, Hash, Structural)]
pub enum ComboProperty {
    Symbol(Symbols),
    DPad(DPad),
    LB(bool),
    RB(bool),
    LT(Trigger),
    RT(Trigger),
    LeftPad(AnalogPad),
    RightPad(AnalogPad),
}

/// A decoded value. Two values are equal only when they have the same variant
/// and equal contents.
#[derive(Clone, Copy, PartialEq, Eq, Debug, Structural)]
pub enum ValueType {
    U8(u8),
    U16(u16),
    I16(i16),
    Pad(DPad),
    Symbol(Symbols),
    Bool(bool),
    Combo(ComboProperty),
}

/// Every input signal that can be watched.
#[derive(Clone, Copy, PartialEq, Eq, Debug, Hash, Structural)]
pub enum PropertyKind {
    Input(InputProperty),
    Combo(ComboProperty),
}

/// The signed 16-bit number stored little-endian in `lo`, `hi`.
pub open spec fn le_i16(lo: u8, hi: u8) -> int {
    let raw = lo + 256 * hi;
    if raw >= 0x8000 {
        raw - 0x10000
    } else {
        raw
    }
}

/// A touch point's 12-bit X: the low byte, with the low nibble of the next byte above it.
pub open spec fn touch_x(lo: u8, hi: u8) -> int {
    lo + 256 * (hi % 16)
}

/// A touch point's 12-bit Y: the high nibble of the first byte, with the next byte above it.
pub open spec fn touch_y(lo: u8, hi: u8) -> int {
    lo / 16 + 16 * hi
}

pub open spec fn input_offset(p: InputProperty) -> Offset {
    match p {
        InputProperty::L1 => Offset { byte_start: 9, byte_end: 10, bit_start: 0, bit_end: 1 },
        InputProperty::R1 => Offset { byte_start: 9, byte_end: 10, bit_start: 1, bit_end: 2 },
        InputProperty::Share => Offset { byte_start: 9, byte_end: 10, bit_start: 4, bit_end: 5 },
        InputProperty::Options => Offset { byte_start: 9, byte_end: 10, bit_start: 5, bit_end: 6 },
        InputProperty::L3 => Offset { byte_start: 9, byte_end: 10, bit_start: 6, bit_end: 7 },
        InputProperty::R3 => Offset { byte_start: 9, byte_end: 10, bit_start: 7, bit_end: 8 },
        InputProperty::PlayStation => Offset { byte_start: 10, byte_end: 11, bit_start: 0, bit_end: 1 },
        InputProperty::TouchPad => Offset { byte_start: 10, byte_end: 11, bit_start: 1, bit_end: 2 },
        InputProperty::Mute => Offset { byte_start: 10, byte_end: 11, bit_start: 2, bit_end: 3 },
        InputProperty::GyroscopeX => Offset { byte_start: 16, byte_end: 18, bit_start: 0, bit_end: 8 },
        InputProperty::GyroscopeY => Offset { byte_start: 18, byte_end: 20, bit_start: 0, bit_end: 8 },
        InputProperty::GyroscopeZ => Offset { byte_start: 20, byte_end: 22, bit_start: 0, bit_end: 8 },
        InputProperty::AccelerationX => Offset { byte_start: 22, byte_end: 24, bit_start: 0, bit_end: 8 },
        InputProperty::AccelerationY => Offset { byte_start: 24, byte_end: 26, bit_start: 0, bit_end: 8 },
        InputProperty::AccelerationZ => Offset { byte_start: 26, byte_end: 28, bit_start: 0, bit_end: 8 },
        InputProperty::TouchPadFinger1Active => Offset { byte_start: 33, byte_end: 34, bit_start: 0, bit_end: 8 },
        InputProperty::TouchPad1Id => Offset { byte_start: 33, byte_end: 34, bit_start: 0, bit_end: 8 },
        InputProperty::TouchPad1X => Offset { byte_start: 34, byte_end: 36, bit_start: 0, bit_end: 8 },
        InputProperty::TouchPad1Y => Offset { byte_start: 35, byte_end: 37, bit_start: 0, bit_end: 8 },
        InputProperty::TouchPadFinger2Active => Offset { byte_start: 37, byte_end: 38, bit_start: 0, bit_end: 8 },
        InputProperty::TouchPad2Id => Offset { byte_start: 37, byte_end: 38, bit_start: 0, bit_end: 8 },
        InputProperty::TouchPad2X => Offset { byte_start: 38, byte_end: 40, bit_start: 0, bit_end: 8 },
        InputProperty::TouchPad2Y => Offset { byte_start: 39, byte_end: 41, bit_start: 0, bit_end: 8 },
        InputProperty::R2FeedbackOn => Offset { byte_start: 42, byte_end: 43, bit_start: 0, bit_end: 8 },
        InputProperty::L2FeedbackOn => Offset { byte_start: 43, byte_end: 44, bit_start: 0, bit_end: 8 },
        InputProperty::R2FeedbackValue => Offset { byte_start: 42, byte_end: 43, bit_start: 0, bit_end: 8 },
        InputProperty::L2FeedbackValue => Offset { byte_start: 43, byte_end: 44, bit_start: 0, bit_end: 8 },
    }
}

/// How many bytes the conversion of `p` reads.
pub open spec fn input_width(p: InputProperty) -> nat {
    match p {
        InputProperty::GyroscopeX | InputProperty::GyroscopeY | InputProperty::GyroscopeZ
        | InputProperty::AccelerationX | InputProperty::AccelerationY
        | InputProperty::AccelerationZ | InputProperty::TouchPad1X | InputProperty::TouchPad1Y
        | InputProperty::TouchPad2X | InputProperty::TouchPad2Y => 2,
        _ => 1,
    }
}

/// The value of `p` read from its field's bytes `d`.
pub open spec fn input_value(p: InputProperty, d: Seq<u8>) -> ValueType {
    match p {
        InputProperty::L1 | InputProperty::R1 | InputProperty::L3 | InputProperty::R3
        | InputProperty::Options | InputProperty::Share | InputProperty::Mute
        | InputProperty::TouchPad | InputProperty::PlayStation => ValueType::Bool(d[0] == 1),
        InputProperty::GyroscopeX | InputProperty::GyroscopeY | InputProperty::GyroscopeZ
        | InputProperty::AccelerationX | InputProperty::AccelerationY
        | InputProperty::AccelerationZ => ValueType::I16(le_i16(d[0], d[1]) as i16),
        InputProperty::TouchPadFinger1Active | InputProperty::TouchPadFinger2Active => {
            ValueType::Bool(d[0] < 0x80)
        },
        InputProperty::TouchPad1Id | InputProperty::TouchPad2Id => ValueType::U8(d[0] % 0x80),
        InputProperty::TouchPad1X | InputProperty::TouchPad2X => {
            ValueType::U16(touch_x(d[0], d[1]) as u16)
        },
        InputProperty::TouchPad1Y | InputProperty::TouchPad2Y => {
            ValueType::U16(touch_y(d[0], d[1]) as u16)
        },
        InputProperty::R2FeedbackOn | InputProperty::L2FeedbackOn => {
            ValueType::Bool((d[0] / 16) % 2 == 1)
        },
        InputProperty::R2FeedbackValue | InputProperty::L2FeedbackValue => ValueType::U8(d[0] % 16),
    }
}

pub open spec fn combo_offset(p: ComboProperty) -> Offset {
    match p {
        ComboProperty::LeftPad(_) => Offset { byte_start: 1, byte_end: 3, bit_start: 0, bit_end: 8 },
        ComboProperty::RightPad(_) => Offset { byte_start: 3, byte_end: 5, bit_start: 0, bit_end: 8 },
        ComboProperty::Symbol(_) => Offset { byte_start: 8, byte_end: 9, bit_start: 4, bit_end: 8 },
        ComboProperty::DPad(_) => Offset { byte_start: 8, byte_end: 9, bit_start: 0, bit_end: 4 },
        ComboProperty::LB(_) => Offset { byte_start: 9, byte_end: 10, bit_start: 0, bit_end: 1 },
        ComboProperty::RB(_) => Offset { byte_start: 9, byte_end: 10, bit_start: 1, bit_end: 2 },
        ComboProperty::LT(_) => Offset { byte_start: 5, byte_end: 6, bit_start: 0, bit_end: 8 },
        ComboProperty::RT(_) => Offset { byte_start: 6, byte_end: 7, bit_start: 0, bit_end: 8 },
    }
}

/// How many bytes the conversion of `p` reads.
pub open spec fn combo_width(p: ComboProperty) -> nat {
    match p {
        ComboProperty::LeftPad(_) | ComboProperty::RightPad(_) => 2,
        _ => 1,
    }
}

/// The value of `p` read from its field's bytes `d`; the payload of `p` plays no part.
pub open spec fn combo_value(p: ComboProperty, d: Seq<u8>) -> ComboProperty {
    match p {
        ComboProperty::Symbol(_) => ComboProperty::Symbol(symbols_of(d[0])),
        ComboProperty::DPad(_) => ComboProperty::DPad(dpad_of(d[0])),
        ComboProperty::LB(_) => ComboProperty::LB(d[0] == 1),
        ComboProperty::RB(_) => ComboProperty::RB(d[0] == 1),
        ComboProperty::LeftPad(_) => ComboProperty::LeftPad(AnalogPad { x: d[0], y: d[1] }),
        ComboProperty::RightPad(_) => ComboProperty::RightPad(AnalogPad { x: d[0], y: d[1] }),
        ComboProperty::LT(_) => ComboProperty::LT(Trigger(d[0])),
        ComboProperty::RT(_) => ComboProperty::RT(Trigger(d[0])),
    }
}

/// The same variant as `p`, holding its zero value.
pub open spec fn combo_base(p: ComboProperty) -> ComboProperty {
    match p {
        ComboProperty::Symbol(_) => ComboProperty::Symbol(Symbols::Released),
        ComboProperty::DPad(_) => ComboProperty::DPad(DPad::Released),
        ComboProperty::LB(_) => ComboProperty::LB(false),
        ComboProperty::RB(_) => ComboProperty::RB(false),
        ComboProperty::LT(_) => ComboProperty::LT(Trigger(0)),
        ComboProperty::RT(_) => ComboProperty::RT(Trigger(0)),
        ComboProperty::LeftPad(_) => ComboProperty::LeftPad(AnalogPad { x: 0, y: 0 }),
        ComboProperty::RightPad(_) => ComboProperty::RightPad(AnalogPad { x: 0, y: 0 }),
    }
}

/// The value of property `k` in the input report `report`.
pub open spec fn decoded(k: PropertyKind, report: Seq<u8>) -> ValueType {
    match k {
        PropertyKind::Input(p) => input_value(p, field_bytes(input_offset(p), report)),
        PropertyKind::Combo(c) => ValueType::Combo(combo_value(c, field_bytes(combo_offset(c), report))),
    }
}

/// The key under which `k` is watched: combo properties with their payload zeroed.
pub open spec fn key_of(k: PropertyKind) -> PropertyKind {
    match k {
        PropertyKind::Input(p) => PropertyKind::Input(p),
        PropertyKind::Combo(c) => PropertyKind::Combo(combo_base(c)),
    }
}

/// The signed 16-bit number stored little-endian in `data[0]`, `data[1]`.
pub fn gyro_accel_into_u16(data: &[u8]) -> (r: i16)
    requires
        data@.len() >= 2,
    ensures
        r as int == le_i16(data@[0], data@[1]),
{
    let lo: u8 = data[0];
    let hi: u8 = data[1];
    let raw: u16 = ((hi as u16) << 8u16) | lo as u16;
    proof {
        assert(((hi as u16) << 8u16) | lo as u16 == lo + 256 * hi) by (bit_vector);
        assert(raw >= 0x8000 ==> (raw as i16) as int == raw - 0x10000) by (bit_vector);
        assert(raw < 0x8000 ==> (raw as i16) as int == raw) by (bit_vector);
    }
    raw as i16
}

impl InputProperty {
    pub fn offset(&self) -> (r: Offset)
        ensures
            r == input_offset(*self),
    {
        match self {
            InputProperty::L1 => Offset::bit(9, 0),
            InputProperty::R1 => Offset::bit(9, 1),
            InputProperty::Share => Offset::bit(9, 4),
            InputProperty::Options => Offset::bit(9, 5),
            InputProperty::L3 => Offset::bit(9, 6),
            InputProperty::R3 => Offset::bit(9, 7),
            InputProperty::PlayStation => Offset::bit(10, 0),
            InputProperty::TouchPad => Offset::bit(10, 1),
            InputProperty::Mute => Offset::bit(10, 2),
            InputProperty::GyroscopeX => Offset::bytes(16, 18),
            InputProperty::GyroscopeY => Offset::bytes(18, 20),
            InputProperty::GyroscopeZ => Offset::bytes(20, 22),
            InputProperty::AccelerationX => Offset::bytes(22, 24),
            InputProperty::AccelerationY => Offset::bytes(24, 26),
            InputProperty::AccelerationZ => Offset::bytes(26, 28),
            InputProperty::TouchPadFinger1Active => Offset::bytes(33, 34),
            InputProperty::TouchPad1Id => Offset::bytes(33, 34),
            InputProperty::TouchPad1X => Offset::bytes(34, 36),
            InputProperty::TouchPad1Y => Offset::bytes(35, 37),
            InputProperty::TouchPadFinger2Active => Offset::bytes(37, 38),
            InputProperty::TouchPad2Id => Offset::bytes(37, 38),
            InputProperty::TouchPad2X => Offset::bytes(38, 40),
            InputProperty::TouchPad2Y => Offset::bytes(39, 41),
            InputProperty::R2FeedbackOn => Offset::bytes(42, 43),
            InputProperty::L2FeedbackOn => Offset::bytes(43, 44),
            InputProperty::R2FeedbackValue => Offset::bytes(42, 43),
            InputProperty::L2FeedbackValue => Offset::bytes(43, 44),
        }
    }

    /// Converts the bytes of this property's field into its value.
    pub fn convert(&self, data: &[u8]) -> (r: ValueType)
        requires
            data@.len() >= input_width(*self),
        ensures
            r == input_value(*self, data@),
    {
        match self {
            InputProperty::L1 | InputProperty::R1 | InputProperty::L3 | InputProperty::R3
            | InputProperty::Options | InputProperty::Share | InputProperty::Mute
            | InputProperty::TouchPad | InputProperty::PlayStation => ValueType::Bool(data[0] == 1),
            InputProperty::GyroscopeX | InputProperty::GyroscopeY | InputProperty::GyroscopeZ
            | InputProperty::AccelerationX | InputProperty::AccelerationY
            | InputProperty::AccelerationZ => ValueType::I16(gyro_accel_into_u16(data)),
            InputProperty::TouchPadFinger1Active | InputProperty::TouchPadFinger2Active => {
                let b: u8 = data[0];
                proof {
                    assert((b & 0x80 == 0) == (b < 0x80)) by (bit_vector);
                }
                ValueType::Bool(b & 0x80 == 0)
            },
            InputProperty::TouchPad1Id | InputProperty::TouchPad2Id => {
                let b: u8 = data[0];
                proof {
                    assert(b & 0x7F == b % 0x80) by (bit_vector);
                }
                ValueType::U8(b & 0x7F)
            },
            InputProperty::TouchPad1X | InputProperty::TouchPad2X => {
                let lo: u8 = data[0];
                let hi: u8 = data[1];
                proof {
                    assert(((hi as u16 & 0x0F) << 8u16) | lo as u16 == lo + 256 * (hi % 16))
                        by (bit_vector);
                }
                ValueType::U16(((hi as u16 & 0x0F) << 8u16) | lo as u16)
            },
            InputProperty::TouchPad1Y | InputProperty::TouchPad2Y => {
                let lo: u8 = data[0];
                let hi: u8 = data[1];
                proof {
                    assert(((hi as u16) << 4u16) | ((lo as u16 & 0xF0) >> 4u16) == lo / 16 + 16
                        * hi) by (bit_vector);
                }
                ValueType::U16(((hi as u16) << 4u16) | ((lo as u16 & 0xF0) >> 4u16))
            },
            InputProperty::R2FeedbackOn | InputProperty::L2FeedbackOn => {
                let b: u8 = data[0];
                proof {
                    assert((b & 0x10 == 0x10) == ((b / 16) % 2 == 1)) by (bit_vector);
                }
                ValueType::Bool(b & 0x10 == 0x10)
            },
            InputProperty::R2FeedbackValue | InputProperty::L2FeedbackValue => {
                let b: u8 = data[0];
                proof {
                    assert(b & 0x0F == b % 16) by (bit_vector);
                }
                ValueType::U8(b & 0x0F)
            },
        }
    }

    /// The value of this property in `report`.
    pub fn extract(&self, report: &[u8; 64]) -> (r: ValueType)
        ensures
            r == decoded(PropertyKind::Input(*self), report@),
    {
        let off = self.offset();
        let field = extract(&off, report);
        self.convert(field.as_slice())
    }
}

/// The D-pad is the low nibble of byte 8 and the face symbol its high nibble.
pub proof fn lemma_dpad_symbol_byte(report: Seq<u8>, c: ComboProperty)
    requires
        report.len() == INPUT_REPORT_LEN,
    ensures
        c is DPad ==> decoded(PropertyKind::Combo(c), report) == ValueType::Combo(
            ComboProperty::DPad(dpad_of(report[8] % 16)),
        ),
        c is Symbol ==> decoded(PropertyKind::Combo(c), report) == ValueType::Combo(
            ComboProperty::Symbol(symbols_of(report[8] / 16)),
        ),
{
    let b = report[8];
    assert(bit_field(b, 0, 4) == b % 16) by (bit_vector);
    assert(bit_field(b, 4, 8) == b / 16) by (bit_vector);
}

impl ComboProperty {
    /// The same variant, holding its zero value.
    pub fn base(&self) -> (r: ComboProperty)
        ensures
            r == combo_base(*self),
    {
        match self {
            ComboProperty::Symbol(_) => ComboProperty::Symbol(Symbols::Released),
            ComboProperty::DPad(_) => ComboProperty::DPad(DPad::Released),
            ComboProperty::LB(_) => ComboProperty::LB(false),
            ComboProperty::RB(_) => ComboProperty::RB(false),
            ComboProperty::LT(_) => ComboProperty::LT(Trigger::new(0)),
            ComboProperty::RT(_) => ComboProperty::RT(Trigger::new(0)),
            ComboProperty::LeftPad(_) => ComboProperty::LeftPad(AnalogPad::new(0, 0)),
            ComboProperty::RightPad(_) => ComboProperty::RightPad(AnalogPad::new(0, 0)),
        }
    }

    pub fn offset(self) -> (r: Offset)
        ensures
            r == combo_offset(self),
    {
        match self {
            ComboProperty::LeftPad(_) => Offset::bytes(1, 3),
            ComboProperty::RightPad(_) => Offset::bytes(3, 5),
            ComboProperty::Symbol(_) => Offset::bits(8, 4, 8),
            ComboProperty::DPad(_) => Offset::bits(8, 0, 4),
            ComboProperty::LB(_) => Offset::bit(9, 0),
            ComboProperty::RB(_) => Offset::bit(9, 1),
            ComboProperty::LT(_) => Offset::byte(5),
            ComboProperty::RT(_) => Offset::byte(6),
        }
    }

    pub fn to_dpad(self) -> (r: DPad)
        requires
            self is DPad,
        ensures
            self == ComboProperty::DPad(r),
    {
        match self {
            ComboProperty::DPad(d) => d,
            _ => DPad::Released,
        }
    }

    pub fn to_symbols(self) -> (r: Symbols)
        requires
            self is Symbol,
        ensures
            self == ComboProperty::Symbol(r),
    {
        match self {
            ComboProperty::Symbol(s) => s,
            _ => Symbols::Released,
        }
    }

    pub fn to_trigger(self) -> (r: Trigger)
        requires
            self is LT || self is RT,
        ensures
            self == ComboProperty::LT(r) || self == ComboProperty::RT(r),
    {
        match self {
            ComboProperty::LT(v) => v,
            ComboProperty::RT(v) => v,
            _ => Trigger::new(0),
        }
    }

    /// Converts the bytes of this property's field into a value of the same variant.
    pub fn convert(&self, data: &[u8]) -> (r: ComboProperty)
        requires
            data@.len() >= combo_width(*self),
        ensures
            r == combo_value(*self, data@),
    {
        match self {
            ComboProperty::Symbol(_) => ComboProperty::Symbol(Symbols::from(data[0])),
            ComboProperty::DPad(_) => ComboProperty::DPad(DPad::from(data[0])),
            ComboProperty::LB(_) => ComboProperty::LB(data[0] == 0x01),
            ComboProperty::RB(_) => ComboProperty::RB(data[0] == 0x01),
            ComboProperty::LeftPad(_) => ComboProperty::LeftPad(AnalogPad::new(data[0], data[1])),
            ComboProperty::RightPad(_) => ComboProperty::RightPad(AnalogPad::new(data[0], data[1])),
            ComboProperty::LT(_) => ComboProperty::LT(Trigger::new(data[0])),
            ComboProperty::RT(_) => ComboProperty::RT(Trigger::new(data[0])),
        }
    }

    /// The value of this property in `report`.
    pub fn extract(&self, report: &[u8; 64]) -> (r: ValueType)
        ensures
            r == decoded(PropertyKind::Combo(*self), report@),
    {
        let off = self.offset();
        let field = extract(&off, report);
        ValueType::Combo(self.convert(field.as_slice()))
    }
}

impl PropertyKind {
    /// The value of this property in `report`.
    pub fn decode(&self, report: &[u8; 64]) -> (r: ValueType)
        ensures
            r == decoded(*self, report@),
    {
        match self {
            PropertyKind::Input(p) => p.extract(report),
            PropertyKind::Combo(c) => c.extract(report),
        }
    }

    /// The key under which this property is watched.
    pub fn key(&self) -> (r: PropertyKind)
        ensures
            r == key_of(*self),
    {
        match self {
            PropertyKind::Input(p) => PropertyKind::Input(*p),
            PropertyKind::Combo(c) => PropertyKind::Combo(c.base()),
        }
    }
}

impl ValueType {
    pub fn to_u8(self) -> (r: u8)
        requires
            self is U8,
        ensures
            self == ValueType::U8(r),
    {
        match self {
            ValueType::U8(v) => v,
            _ => 0,
        }
    }

    pub fn to_u16(self) -> (r: u16)
        requires
            self is U16,
        ensures
            self == ValueType::U16(r),
    {
        match self {
            ValueType::U16(v) => v,
            _ => 0,
        }
    }

    pub fn to_i16(self) -> (r: i16)
        requires
            self is I16,
        ensures
            self == ValueType::I16(r),
    {
        match self {
            ValueType::I16(v) => v,
            _ => 0,
        }
    }

    pub fn to_dpad(self) -> (r: DPad)
        requires
            self is Pad || (self is Combo && self->Combo_0 is DPad),
        ensures
            self == ValueType::Pad(r) || self == ValueType::Combo(ComboProperty::DPad(r)),
    {
        match self {
            ValueType::Pad(v) => v,
            ValueType::Combo(c) => c.to_dpad(),
            _ => DPad::Released,
        }
    }

    pub fn to_symbol(self) -> (r: Symbols)
        requires
            self is Symbol || (self is Combo && self->Combo_0 is Symbol),
        ensures
            self == ValueType::Symbol(r) || self == ValueType::Combo(ComboProperty::Symbol(r)),
    {
        match self {
            ValueType::Symbol(v) => v,
            ValueType::Combo(c) => c.to_symbols(),
            _ => Symbols::Released,
        }
    }

    pub fn to_bool(self) -> (r: bool)
        requires
            self is Bool,
        ensures
            self == ValueType::Bool(r),
    {
        match self {
            ValueType::Bool(v) => v,
            _ => false,
        }
    }

    pub fn to_combo(self) -> (r: ComboProperty)
        requires
            self is Combo,
        ensures
            self == ValueType::Combo(r),
    {
        match self {
            ValueType::Combo(v) => v,
            _ => ComboProperty::LB(false),
        }
    }

    pub fn to_analog(self) -> (r: AnalogPad)
        requires
            self is Combo && (self->Combo_0 is LeftPad || self->Combo_0 is RightPad),
        ensures
            self == ValueType::Combo(ComboProperty::LeftPad(r)) || self == ValueType::Combo(
                ComboProperty::RightPad(r),
            ),
    {
        match self {
            ValueType::Combo(ComboProperty::LeftPad(v)) => v,
            ValueType::Combo(ComboProperty::RightPad(v)) => v,
            _ => AnalogPad::new(0, 0),
        }
    }

    pub fn to_trigger(self) -> (r: Trigger)
        requires
            self is Combo && (self->Combo_0 is LT || self->Combo_0 is RT),
        ensures
            self == ValueType::Combo(ComboProperty::LT(r)) || self == ValueType::Combo(
                ComboProperty::RT(r),
            ),
    {
        match self {
            ValueType::Combo(c) => c.to_trigger(),
            _ => Trigger::new(0),
        }
    }
}

} // verus!
