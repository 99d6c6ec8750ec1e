//! Typed values decoded from an input report.
use vstd::prelude::*;

verus! {

/// Direction reported by the directional pad, in clockwise order starting at `Up`.
#[derive(Clone, Copy, PartialEq, Eq, Debug, Hash, Structural)]
pub enum DPad {
    Up,
    UpRight,
    Right,
    DownRight,
    Down,
    DownLeft,
    Left,
    UpLeft,
    Released,
}

/// The direction named by a D-pad nibble: `0..=7` clockwise from `Up`, anything else `Released`.
pub open spec fn dpad_of(value: u8) -> DPad {
    if value == 0 {
        DPad::Up
    } else if value == 1 {
        DPad::UpRight
    } else if value == 2 {
        DPad::Right
    } else if value == 3 {
        DPad::DownRight
    } else if value == 4 {
        DPad::Down
    } else if value == 5 {
        DPad::DownLeft
    } else if value == 6 {
        DPad::Left
    } else if value == 7 {
        DPad::UpLeft
    } else {
        DPad::Released
    }
}

/// Position of a direction in clockwise order from `Up`; `Released` comes after all.
pub open spec fn clockwise_index(d: DPad) -> int {
    match d {
        DPad::Up => 0,
        DPad::UpRight => 1,
        DPad::Right => 2,
        DPad::DownRight => 3,
        DPad::Down => 4,
        DPad::DownLeft => 5,
        DPad::Left => 6,
        DPad::UpLeft => 7,
        DPad::Released => 8,
    }
}

/// Nibbles `0..=7` name the eight directions one to one, in clockwise order from
/// `Up`; every value from 8 on names no direction.
pub proof fn lemma_dpad_decode_bijective()
    ensures
        forall|v: u8| v < 8 ==> clockwise_index(#[trigger] dpad_of(v)) == v,
        forall|v: u8| v >= 8 ==> #[trigger] dpad_of(v) == DPad::Released,
        forall|d: DPad| d != DPad::Released ==> dpad_of(#[trigger] clockwise_index(d) as u8) == d,
{
}

impl From<u8> for DPad {
    fn from(value: u8) -> (r: DPad)
        ensures
            r == dpad_of(value),
    {
        match value {
            0 => DPad::Up,
            1 => DPad::UpRight,
            2 => DPad::Right,
            3 => DPad::DownRight,
            4 => DPad::Down,
            5 => DPad::DownLeft,
            6 => DPad::Left,
            7 => DPad::UpLeft,
            _ => DPad::Released,
        }
    }
}

impl vstd::std_specs::convert::FromSpecImpl<u8> for DPad {
    open spec fn obeys_from_spec() -> bool {
        true
    }

    open spec fn from_spec(v: u8) -> DPad {
        dpad_of(v)
    }
}

/// Face-symbol button reported in the high nibble of the D-pad byte.
#[derive(Clone, Copy, PartialEq, Eq, Debug, Hash, Structural)]
pub enum Symbols {
    Square,
    Cross,
    Circle,
    Triangle,
    Released,
}

/// The symbol named by a face-symbol nibble: one flag each of `1, 2, 4, 8`,
/// anything else `Released`.
pub open spec fn symbols_of(value: u8) -> Symbols {
    if value == 1 {
        Symbols::Square
    } else if value == 2 {
        Symbols::Cross
    } else if value == 4 {
        Symbols::Circle
    } else if value == 8 {
        Symbols::Triangle
    } else {
        Symbols::Released
    }
}

impl From<u8> for Symbols {
    fn from(value: u8) -> (r: Symbols)
        ensures
            r == symbols_of(value),
    {
        match value {
            1 => Symbols::Square,
            2 => Symbols::Cross,
            4 => Symbols::Circle,
            8 => Symbols::Triangle,
            _ => Symbols::Released,
        }
    }
}

impl vstd::std_specs::convert::FromSpecImpl<u8> for Symbols {
    open spec fn obeys_from_spec() -> bool {
        true
    }

    open spec fn from_spec(v: u8) -> Symbols {
        symbols_of(v)
    }
}

/// How far an analog trigger is pulled, `0` released to `255` fully pressed.
#[derive(Clone, Copy, PartialEq, Eq, Debug, Hash, Structural)]
pub struct Trigger(pub u8);

impl Trigger {
    pub fn new(value: u8) -> (r: Trigger)
        ensures
            r.0 == value,
    {
        Trigger(value)
    }

    pub fn value(&self) -> (r: u8)
        ensures
            r == self.0,
    {
        self.0
    }
}

impl Default for Trigger {
    fn default() -> (r: Trigger)
        ensures
            r.0 == 0,
    {
        Trigger(0)
    }
}

/// Middle position of a stick axis.
pub const ANALOG_PAD_MIDDLE: u8 = 127;

/// Distance from the middle within which a stick axis counts as resting.
pub const DEAD_ZONE: u8 = 10;

/// Position of an analog stick: one byte per axis, `0` left/up, `255` right/down.
#[derive(Clone, Copy, PartialEq, Eq, Debug, Hash, Structural)]
pub struct AnalogPad {
    pub x: u8,
    pub y: u8,
}

/// Coarse direction in which a stick points.
#[derive(Clone, Copy, PartialEq, Eq, Debug, Hash, Structural)]
pub enum DirectionQuadrant {
    North,
    East,
    South,
    West,
    DeadZone,
}

/// Whether `v` lies within the dead zone around the middle.
pub open spec fn near_middle(v: u8) -> bool {
    ANALOG_PAD_MIDDLE - DEAD_ZONE <= v && v <= ANALOG_PAD_MIDDLE + DEAD_ZONE
}

/// Whether an axis value lies within 180 of the middle, which every byte does.
pub open spec fn within_quadrant(v: u8) -> bool {
    -180 <= v - ANALOG_PAD_MIDDLE && v - ANALOG_PAD_MIDDLE <= 180
}

/// The quadrant of a stick: resting when both axes are near the middle,
/// otherwise south when the vertical axis is at or below the middle, else north.
pub open spec fn quadrant_of(x: u8, y: u8) -> DirectionQuadrant {
    if near_middle(x) && near_middle(y) {
        DirectionQuadrant::DeadZone
    } else if y >= ANALOG_PAD_MIDDLE {
        DirectionQuadrant::South
    } else {
        DirectionQuadrant::North
    }
}

impl AnalogPad {
    pub fn new(x: u8, y: u8) -> (r: AnalogPad)
        ensures
            r.x == x,
            r.y == y,
    {
        AnalogPad { x, y }
    }

    ///  \N/
    /// W X E
    ///  /S\
    ///
    /// Every axis value lies within reach of the vertical quadrants, so outside the
    /// dead zone the result is `North` or `South`.
    pub fn direction_quadrant(&self) -> (r: DirectionQuadrant)
        ensures
            r == quadrant_of(self.x, self.y),
    {
        if self.in_dead_zone() {
            DirectionQuadrant::DeadZone
        } else if Self::in_quadrant(self.x) {
            if self.y >= ANALOG_PAD_MIDDLE {
                DirectionQuadrant::South
            } else {
                DirectionQuadrant::North
            }
        } else if Self::in_quadrant(self.y) {
            if self.x >= ANALOG_PAD_MIDDLE {
                DirectionQuadrant::East
            } else {
                DirectionQuadrant::West
            }
        } else {
            proof {
                assert(false);
            }
            DirectionQuadrant::DeadZone
        }
    }

    fn in_quadrant(value: u8) -> (r: bool)
        ensures
            r == within_quadrant(value),
    {
        let d: i32 = value as i32 - ANALOG_PAD_MIDDLE as i32;
        -180 <= d && d <= 180
    }

    fn in_dead_zone(&self) -> (r: bool)
        ensures
            r == (near_middle(self.x) && near_middle(self.y)),
    {
        let lo: u8 = ANALOG_PAD_MIDDLE - DEAD_ZONE;
        let hi: u8 = ANALOG_PAD_MIDDLE + DEAD_ZONE;
        lo <= self.x && self.x <= hi && lo <= self.y && self.y <= hi
    }
}

impl Default for AnalogPad {
    fn default() -> (r: AnalogPad)
        ensures
            r.x == 0,
            r.y == 0,
    {
        AnalogPad { x: 0, y: 0 }
    }
}

/// Resistance pattern applied by a trigger's motor.
#[derive(Clone, Copy, PartialEq, Eq, Debug, Hash, Structural)]
pub enum TriggerEffect {
    Off,
    Mode1,
    Mode2,
    Mode1_4,
    Mode2_4,
    Mode1_20,
    Mode1_4_20,
    Mode2_4_20,
    Calibration,
}

/// The mode byte that selects an effect in the output report.
pub open spec fn effect_byte(e: TriggerEffect) -> u8 {
    match e {
        TriggerEffect::Off => 0x00,
        TriggerEffect::Mode1 => 0x01,
        TriggerEffect::Mode2 => 0x02,
        TriggerEffect::Mode1_4 => 0x05,
        TriggerEffect::Mode2_4 => 0x06,
        TriggerEffect::Mode1_20 => 0x21,
        TriggerEffect::Mode1_4_20 => 0x25,
        TriggerEffect::Mode2_4_20 => 0x26,
        TriggerEffect::Calibration => 0xFC,
    }
}

impl TriggerEffect {
    pub fn byte(self) -> (r: u8)
        ensures
            r == effect_byte(self),
    {
        match self {
            TriggerEffect::Off => 0x00,
            TriggerEffect::Mode1 => 0x01,
            TriggerEffect::Mode2 => 0x02,
            TriggerEffect::Mode1_4 => 0x05,
            TriggerEffect::Mode2_4 => 0x06,
            TriggerEffect::Mode1_20 => 0x21,
            TriggerEffect::Mode1_4_20 => 0x25,
            TriggerEffect::Mode2_4_20 => 0x26,
            TriggerEffect::Calibration => 0xFC,
        }
    }
}

} // verus!
