//! Pending output values (lights, mute light, trigger effects) and the output
//! report that carries them.
use vstd::prelude::*;
use crate::values::{TriggerEffect, effect_byte};

verus! {

/// Length of an output report in bytes.
pub const OUTPUT_REPORT_LEN: usize = 48;

/// Output signals, each written to one byte of the output report.
#[derive(Clone, Copy, PartialEq, Eq, Debug, Hash, Structural)]
pub enum OutputProperty {
    Red,
    Green,
    Blue,
    RightEffectMode,
    RightEffectParameter1,
    RightEffectParameter2,
    RightEffectParameter3,
    RightEffectParameter4,
    RightEffectParameter5,
    RightEffectParameter6,
    RightEffectParameter7,
    LeftEffectMode,
    LeftEffectParameter1,
    LeftEffectParameter2,
    LeftEffectParameter3,
    LeftEffectParameter4,
    LeftEffectParameter5,
    LeftEffectParameter6,
    LeftEffectParameter7,
    PlayerLight,
    Mute,
}

/// The offset of a field in the output report.
pub open spec fn output_byte(p: OutputProperty) -> int {
    match p {
        OutputProperty::Red => 45,
        OutputProperty::Green => 46,
        OutputProperty::Blue => 47,
        OutputProperty::Mute => 9,
        OutputProperty::RightEffectMode => 11,
        OutputProperty::RightEffectParameter1 => 12,
        OutputProperty::RightEffectParameter2 => 13,
        OutputProperty::RightEffectParameter3 => 14,
        OutputProperty::RightEffectParameter4 => 15,
        OutputProperty::RightEffectParameter5 => 16,
        OutputProperty::RightEffectParameter6 => 17,
        OutputProperty::RightEffectParameter7 => 18,
        OutputProperty::LeftEffectMode => 22,
        OutputProperty::LeftEffectParameter1 => 23,
        OutputProperty::LeftEffectParameter2 => 24,
        OutputProperty::LeftEffectParameter3 => 25,
        OutputProperty::LeftEffectParameter4 => 26,
        OutputProperty::LeftEffectParameter5 => 27,
        OutputProperty::LeftEffectParameter6 => 28,
        OutputProperty::LeftEffectParameter7 => 29,
        OutputProperty::PlayerLight => 44,
    }
}

/// The field written at offset `i` of the output report, if any.
pub open spec fn field_at(i: int) -> Option<OutputProperty> {
    if i == 9 {
        Some(OutputProperty::Mute)
    } else if i == 11 {
        Some(OutputProperty::RightEffectMode)
    } else if i == 12 {
        Some(OutputProperty::RightEffectParameter1)
    } else if i == 13 {
        Some(OutputProperty::RightEffectParameter2)
    } else if i == 14 {
        Some(OutputProperty::RightEffectParameter3)
    } else if i == 15 {
        Some(OutputProperty::RightEffectParameter4)
    } else if i == 16 {
        Some(OutputProperty::RightEffectParameter5)
    } else if i == 17 {
        Some(OutputProperty::RightEffectParameter6)
    } else if i == 18 {
        Some(OutputProperty::RightEffectParameter7)
    } else if i == 22 {
        Some(OutputProperty::LeftEffectMode)
    } else if i == 23 {
        Some(OutputProperty::LeftEffectParameter1)
    } else if i == 24 {
        Some(OutputProperty::LeftEffectParameter2)
    } else if i == 25 {
        Some(OutputProperty::LeftEffectParameter3)
    } else if i == 26 {
        Some(OutputProperty::LeftEffectParameter4)
    } else if i == 27 {
        Some(OutputProperty::LeftEffectParameter5)
    } else if i == 28 {
        Some(OutputProperty::LeftEffectParameter6)
    } else if i == 29 {
        Some(OutputProperty::LeftEffectParameter7)
    } else if i == 44 {
        Some(OutputProperty::PlayerLight)
    } else if i == 45 {
        Some(OutputProperty::Red)
    } else if i == 46 {
        Some(OutputProperty::Green)
    } else if i == 47 {
        Some(OutputProperty::Blue)
    } else {
        None
    }
}

proof fn lemma_field_at(p: OutputProperty)
    ensures
        field_at(output_byte(p)) == Some(p),
        0 <= output_byte(p) < OUTPUT_REPORT_LEN,
{
}

proof fn lemma_field_at_inverse(i: int)
    ensures
        field_at(i) is Some ==> output_byte(field_at(i)->Some_0) == i,
{
}

/// The fixed bytes of an output report: report id, two mode-enable bytes and two
/// feature-enable bytes.
pub open spec fn header_byte(i: int) -> Option<u8> {
    if i == 0 {
        Some(0x02u8)
    } else if i == 1 {
        Some(0xFFu8)
    } else if i == 2 {
        Some(0xF7u8)
    } else if i == 40 || i == 41 {
        Some(0x02u8)
    } else {
        None
    }
}

/// Byte `i` of the output report carrying `values`.
pub open spec fn report_byte(values: Map<OutputProperty, u8>, i: int) -> u8 {
    if header_byte(i) is Some {
        header_byte(i)->Some_0
    } else if field_at(i) is Some && values.contains_key(field_at(i)->Some_0) {
        values[field_at(i)->Some_0]
    } else {
        0
    }
}

/// The output report carrying `values`: the header, each field that was set at its
/// offset, and zero everywhere else.
pub open spec fn output_report(values: Map<OutputProperty, u8>) -> Seq<u8> {
    Seq::new(OUTPUT_REPORT_LEN as nat, |i: int| report_byte(values, i))
}

/// The player-indicator pattern for players `0..=5`.
pub open spec fn player_pattern(n: u8) -> u8 {
    if n == 0 {
        0x00
    } else if n == 1 {
        0x04
    } else if n == 2 {
        0x0A
    } else if n == 3 {
        0x15
    } else if n == 4 {
        0x1B
    } else {
        0x10
    }
}

impl OutputProperty {
    pub fn byte(self) -> (r: usize)
        ensures
            r == output_byte(self),
    {
        match self {
            OutputProperty::Red => 45,
            OutputProperty::Green => 46,
            OutputProperty::Blue => 47,
            OutputProperty::Mute => 9,
            OutputProperty::RightEffectMode => 11,
            OutputProperty::RightEffectParameter1 => 12,
            OutputProperty::RightEffectParameter2 => 13,
            OutputProperty::RightEffectParameter3 => 14,
            OutputProperty::RightEffectParameter4 => 15,
            OutputProperty::RightEffectParameter5 => 16,
            OutputProperty::RightEffectParameter6 => 17,
            OutputProperty::RightEffectParameter7 => 18,
            OutputProperty::LeftEffectMode => 22,
            OutputProperty::LeftEffectParameter1 => 23,
            OutputProperty::LeftEffectParameter2 => 24,
            OutputProperty::LeftEffectParameter3 => 25,
            OutputProperty::LeftEffectParameter4 => 26,
            OutputProperty::LeftEffectParameter5 => 27,
            OutputProperty::LeftEffectParameter6 => 28,
            OutputProperty::LeftEffectParameter7 => 29,
            OutputProperty::PlayerLight => 44,
        }
    }
}

pub ghost struct OutputView {
    pub values: Map<OutputProperty, u8>,
    pub dirty: bool,
}

/// Output values waiting to be sent, and whether any changed since the last flush.
pub struct OutputCache {
    pending: Vec<Option<u8>>,
    dirty: bool,
}

impl View for OutputCache {
    type V = OutputView;

    closed spec fn view(&self) -> OutputView {
        OutputView {
            values: Map::new(
                |p: OutputProperty| self.pending@[output_byte(p)] is Some,
                |p: OutputProperty| self.pending@[output_byte(p)]->Some_0,
            ),
            dirty: self.dirty,
        }
    }
}

impl OutputCache {
    /// One slot per report byte, set only at field offsets.
    pub closed spec fn wf(&self) -> bool {
        &&& self.pending@.len() == OUTPUT_REPORT_LEN
        &&& forall|i: int|
            0 <= i < OUTPUT_REPORT_LEN && #[trigger] self.pending@[i] is Some ==> field_at(i) is Some
    }

    pub fn new() -> (r: OutputCache)
        ensures
            r.wf(),
            r@.values == Map::<OutputProperty, u8>::empty(),
            !r@.dirty,
    {
        let mut pending: Vec<Option<u8>> = Vec::new();
        let mut i: usize = 0;
        while i < OUTPUT_REPORT_LEN
            invariant
                i <= OUTPUT_REPORT_LEN,
                pending@.len() == i,
                forall|j: int| 0 <= j < i ==> #[trigger] pending@[j] is None,
            decreases OUTPUT_REPORT_LEN - i,
        {
            pending.push(None);
            i = i + 1;
        }
        let r = OutputCache { pending, dirty: false };
        proof {
            assert forall|p: OutputProperty| !r@.values.contains_key(p) by {
                lemma_field_at(p);
            }
            assert(r@.values =~= Map::<OutputProperty, u8>::empty());
        }
        r
    }

    /// Sets `field` to `value` and marks the cache as changed.
    pub fn set(&mut self, field: OutputProperty, value: u8)
        requires
            old(self).wf(),
        ensures
            final(self).wf(),
            final(self)@.values == old(self)@.values.insert(field, value),
            final(self)@.dirty,
    {
        let i = field.byte();
        proof {
            lemma_field_at(field);
        }
        self.pending.set(i, Some(value));
        self.dirty = true;
        proof {
            assert forall|p: OutputProperty| output_byte(p) == i implies p == field by {
                lemma_field_at(p);
            }
            assert forall|p: OutputProperty| #[trigger] output_byte(p) != i implies
                self.pending@[output_byte(p)] == old(self).pending@[output_byte(p)] by {
                lemma_field_at(p);
            }
            assert(self@.values =~= old(self)@.values.insert(field, value));
        }
    }

    /// Red channel of the light bar.
    pub fn set_light_red(&mut self, value: u8)
        requires
            old(self).wf(),
        ensures
            final(self).wf(),
            final(self)@.values == old(self)@.values.insert(OutputProperty::Red, value),
            final(self)@.dirty,
    {
        self.set(OutputProperty::Red, value)
    }

    /// Green channel of the light bar.
    pub fn set_light_green(&mut self, value: u8)
        requires
            old(self).wf(),
        ensures
            final(self).wf(),
            final(self)@.values == old(self)@.values.insert(OutputProperty::Green, value),
            final(self)@.dirty,
    {
        self.set(OutputProperty::Green, value)
    }

    /// Blue channel of the light bar.
    pub fn set_light_blue(&mut self, value: u8)
        requires
            old(self).wf(),
        ensures
            final(self).wf(),
            final(self)@.values == old(self)@.values.insert(OutputProperty::Blue, value),
            final(self)@.dirty,
    {
        self.set(OutputProperty::Blue, value)
    }

    /// The effect of the left trigger.
    pub fn set_left_trigger_effect(&mut self, trigger_mode: TriggerEffect)
        requires
            old(self).wf(),
        ensures
            final(self).wf(),
            final(self)@.values == old(self)@.values.insert(OutputProperty::LeftEffectMode, effect_byte(trigger_mode)),
            final(self)@.dirty,
    {
        self.set(OutputProperty::LeftEffectMode, trigger_mode.byte())
    }

    /// Where the trigger's resistance begins.
    pub fn set_left_start_of_resistance(&mut self, value: u8)
        requires
            old(self).wf(),
        ensures
            final(self).wf(),
            final(self)@.values == old(self)@.values.insert(OutputProperty::LeftEffectParameter1, value),
            final(self)@.dirty,
    {
        self.set(OutputProperty::LeftEffectParameter1, value)
    }

    /// Second effect parameter; its meaning depends on the mode.
    pub fn set_left_param2(&mut self, value: u8)
        requires
            old(self).wf(),
        ensures
            final(self).wf(),
            final(self)@.values == old(self)@.values.insert(OutputProperty::LeftEffectParameter2, value),
            final(self)@.dirty,
    {
        self.set(OutputProperty::LeftEffectParameter2, value)
    }

    /// Third effect parameter: the force exerted (mode 2).
    pub fn set_left_param3(&mut self, value: u8)
        requires
            old(self).wf(),
        ensures
            final(self).wf(),
            final(self)@.values == old(self)@.values.insert(OutputProperty::LeftEffectParameter3, value),
            final(self)@.dirty,
    {
        self.set(OutputProperty::LeftEffectParameter3, value)
    }

    /// Fourth effect parameter: the force near release (modes 4 and 20).
    pub fn set_left_param4(&mut self, value: u8)
        requires
            old(self).wf(),
        ensures
            final(self).wf(),
            final(self)@.values == old(self)@.values.insert(OutputProperty::LeftEffectParameter4, value),
            final(self)@.dirty,
    {
        self.set(OutputProperty::LeftEffectParameter4, value)
    }

    /// Fifth effect parameter: the force near the middle (modes 4 and 20).
    pub fn set_left_param5(&mut self, value: u8)
        requires
            old(self).wf(),
        ensures
            final(self).wf(),
            final(self)@.values == old(self)@.values.insert(OutputProperty::LeftEffectParameter5, value),
            final(self)@.dirty,
    {
        self.set(OutputProperty::LeftEffectParameter5, value)
    }

    /// Sixth effect parameter: the force when pressed (modes 4 and 20).
    pub fn set_left_param6(&mut self, value: u8)
        requires
            old(self).wf(),
        ensures
            final(self).wf(),
            final(self)@.values == old(self)@.values.insert(OutputProperty::LeftEffectParameter6, value),
            final(self)@.dirty,
    {
        self.set(OutputProperty::LeftEffectParameter6, value)
    }

    /// Seventh effect parameter: the actuation frequency (modes 4 and 20).
    pub fn set_left_param7(&mut self, value: u8)
        requires
            old(self).wf(),
        ensures
            final(self).wf(),
            final(self)@.values == old(self)@.values.insert(OutputProperty::LeftEffectParameter7, value),
            final(self)@.dirty,
    {
        self.set(OutputProperty::LeftEffectParameter7, value)
    }

    /// The effect of the right trigger.
    pub fn set_right_trigger_effect(&mut self, trigger_mode: TriggerEffect)
        requires
            old(self).wf(),
        ensures
            final(self).wf(),
            final(self)@.values == old(self)@.values.insert(OutputProperty::RightEffectMode, effect_byte(trigger_mode)),
            final(self)@.dirty,
    {
        self.set(OutputProperty::RightEffectMode, trigger_mode.byte())
    }

    /// Where the trigger's resistance begins.
    pub fn set_right_start_of_resistance(&mut self, value: u8)
        requires
            old(self).wf(),
        ensures
            final(self).wf(),
            final(self)@.values == old(self)@.values.insert(OutputProperty::RightEffectParameter1, value),
            final(self)@.dirty,
    {
        self.set(OutputProperty::RightEffectParameter1, value)
    }

    /// Second effect parameter; its meaning depends on the mode.
    pub fn set_right_param2(&mut self, value: u8)
        requires
            old(self).wf(),
        ensures
            final(self).wf(),
            final(self)@.values == old(self)@.values.insert(OutputProperty::RightEffectParameter2, value),
            final(self)@.dirty,
    {
        self.set(OutputProperty::RightEffectParameter2, value)
    }

    /// Third effect parameter: the force exerted (mode 2).
    pub fn set_right_param3(&mut self, value: u8)
        requires
            old(self).wf(),
        ensures
            final(self).wf(),
            final(self)@.values == old(self)@.values.insert(OutputProperty::RightEffectParameter3, value),
            final(self)@.dirty,
    {
        self.set(OutputProperty::RightEffectParameter3, value)
    }

    /// Fourth effect parameter: the force near release (modes 4 and 20).
    pub fn set_right_param4(&mut self, value: u8)
        requires
            old(self).wf(),
        ensures
            final(self).wf(),
            final(self)@.values == old(self)@.values.insert(OutputProperty::RightEffectParameter4, value),
            final(self)@.dirty,
    {
        self.set(OutputProperty::RightEffectParameter4, value)
    }

    /// Fifth effect parameter: the force near the middle (modes 4 and 20).
    pub fn set_right_param5(&mut self, value: u8)
        requires
            old(self).wf(),
        ensures
            final(self).wf(),
            final(self)@.values == old(self)@.values.insert(OutputProperty::RightEffectParameter5, value),
            final(self)@.dirty,
    {
        self.set(OutputProperty::RightEffectParameter5, value)
    }

    /// Sixth effect parameter: the force when pressed (modes 4 and 20).
    pub fn set_right_param6(&mut self, value: u8)
        requires
            old(self).wf(),
        ensures
            final(self).wf(),
            final(self)@.values == old(self)@.values.insert(OutputProperty::RightEffectParameter6, value),
            final(self)@.dirty,
    {
        self.set(OutputProperty::RightEffectParameter6, value)
    }

    /// Seventh effect parameter: the actuation frequency (modes 4 and 20).
    pub fn set_right_param7(&mut self, value: u8)
        requires
            old(self).wf(),
        ensures
            final(self).wf(),
            final(self)@.values == old(self)@.values.insert(OutputProperty::RightEffectParameter7, value),
            final(self)@.dirty,
    {
        self.set(OutputProperty::RightEffectParameter7, value)
    }

    /// Lights the player indicator for player `value`, `0..=5` (0: no light);
    /// any other value leaves the cache as it was.
    pub fn set_player_number(&mut self, value: u8)
        requires
            old(self).wf(),
        ensures
            final(self).wf(),
            value <= 5 ==> final(self)@.values == old(self)@.values.insert(
                OutputProperty::PlayerLight,
                player_pattern(value),
            ) && final(self)@.dirty,
            value > 5 ==> final(self)@ == old(self)@,
    {
        if value > 5 {
            return;
        }
        let to_send: u8 = match value {
            0 => 0x00,
            1 => 0x04,
            2 => 0x0A,
            3 => 0x15,
            4 => 0x1B,
            _ => 0x10,
        };
        self.set(OutputProperty::PlayerLight, to_send)
    }

    /// The mute light: `1` on, `0` off.
    pub fn set_mute(&mut self, value: bool)
        requires
            old(self).wf(),
        ensures
            final(self).wf(),
            final(self)@.values == old(self)@.values.insert(OutputProperty::Mute, if value { 1u8 } else { 0u8 }),
            final(self)@.dirty,
    {
        self.set(OutputProperty::Mute, if value { 1 } else { 0 })
    }

    /// Whether values changed since the last flush.
    pub fn is_dirty(&self) -> (r: bool)
        ensures
            r == self@.dirty,
    {
        self.dirty
    }

    /// The output report carrying the current values.
    pub fn write(&self) -> (r: Vec<u8>)
        requires
            self.wf(),
        ensures
            r@ == output_report(self@.values),
    {
        let mut data: Vec<u8> = Vec::new();
        let mut i: usize = 0;
        while i < OUTPUT_REPORT_LEN
            invariant
                self.wf(),
                i <= OUTPUT_REPORT_LEN,
                data@ == output_report(self@.values).take(i as int),
            decreases OUTPUT_REPORT_LEN - i,
        {
            let b: u8 = if i == 0 {
                0x02
            } else if i == 1 {
                0xFF
            } else if i == 2 {
                0xF7
            } else if i == 40 || i == 41 {
                0x02
            } else {
                match self.pending[i] {
                    Some(v) => v,
                    None => 0,
                }
            };
            proof {
                lemma_field_at_inverse(i as int);
                if field_at(i as int) is Some {
                    lemma_field_at(field_at(i as int)->Some_0);
                }
                assert(b == report_byte(self@.values, i as int));
                assert(output_report(self@.values).take(i as int + 1) =~= data@.push(b));
            }
            data.push(b);
            i = i + 1;
        }
        proof {
            assert(output_report(self@.values).take(OUTPUT_REPORT_LEN as int) =~= output_report(
                self@.values,
            ));
        }
        data
    }

    /// The report to send when values changed since the last flush, which then
    /// counts as sent; `None` when nothing changed.
    pub fn flush(&mut self) -> (r: Option<Vec<u8>>)
        requires
            old(self).wf(),
        ensures
            final(self).wf(),
            final(self)@.values == old(self)@.values,
            !final(self)@.dirty,
            old(self)@.dirty ==> r is Some && r->Some_0@ == output_report(old(self)@.values),
            !old(self)@.dirty ==> r is None,
    {
        if self.dirty {
            let data = self.write();
            self.dirty = false;
            proof {
                assert(self@.values =~= old(self)@.values);
            }
            Some(data)
        } else {
            None
        }
    }
}

/// Encoding a cache in which `field` holds `value` puts `value` at the field's offset.
pub proof fn lemma_output_round_trip(
    values: Map<OutputProperty, u8>,
    field: OutputProperty,
    value: u8,
)
    ensures
        output_report(values.insert(field, value))[output_byte(field)] == value,
{
    lemma_field_at(field);
}

} // verus!
