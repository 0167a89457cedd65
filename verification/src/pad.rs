//! The emulated controller: kinds, the button remap, and the per-slot
//! state machine.
//!
//! A pad is either unbound (no source, no kind, all values neutral) or bound
//! to one physical source with a fixed kind. While bound it accumulates a
//! 28-bit button mask and four stick halves; unbinding returns every field to
//! neutral.

use vstd::prelude::*;

use crate::input::{InputAxis, InputButton, InputEvent};

verus! {

/// The mask never uses more than the low 28 bits.
pub const KEYOUT_LIMIT: i32 = 0x1000_0000;

/// Largest magnitude a stick half can hold on the wire.
pub const STICK_LIMIT: i32 = 32767;

/// The controller kinds a slot can emulate.
#[derive(Clone, Copy, PartialEq, Eq, Structural, Debug)]
pub enum SwitchPad {
    ProController,
    JoyConLSide,
    JoyConRSide,
}

impl SwitchPad {
    /// The numeric wire code of this kind.
    pub open spec fn spec_value(&self) -> i8 {
        match *self {
            SwitchPad::ProController => 1,
            SwitchPad::JoyConLSide => 2,
            SwitchPad::JoyConRSide => 3,
        }
    }

    /// Returns the wire code of this kind.
    pub fn value(&self) -> (v: i8)
        ensures
            v == self.spec_value(),
    {
        match self {
            SwitchPad::ProController => 1,
            SwitchPad::JoyConLSide => 2,
            SwitchPad::JoyConRSide => 3,
        }
    }
}

/// Every button position of the emulated controller, one per mask bit.
///
/// The last twelve (stick directions and the side-grip SL/SR pairs) are
/// reserved bit positions that the canonical remap never produces.
#[derive(Clone, Copy, PartialEq, Eq, Structural, Debug)]
pub enum SwitchButton {
    A,
    B,
    X,
    Y,
    LST,
    RST,
    L,
    R,
    ZL,
    ZR,
    Plus,
    Minus,
    DL,
    DU,
    DR,
    DD,
    LL,
    LU,
    LR,
    LD,
    RL,
    RU,
    RR,
    RD,
    SLL,
    SRL,
    SLR,
    SRR,
}

impl SwitchButton {
    /// The single mask bit of this button. Bit positions are fixed by the
    /// wire format: A=0, B=1, X=2, Y=3, the stick clicks 4-5, L/R 6-7,
    /// ZL/ZR 8-9, Plus/Minus 10-11, the d-pad 12-15, then the reserved
    /// positions 16-27.
    pub open spec fn spec_value(&self) -> i32 {
        match *self {
            SwitchButton::A => 0x1,
            SwitchButton::B => 0x2,
            SwitchButton::X => 0x4,
            SwitchButton::Y => 0x8,
            SwitchButton::LST => 0x10,
            SwitchButton::RST => 0x20,
            SwitchButton::L => 0x40,
            SwitchButton::R => 0x80,
            SwitchButton::ZL => 0x100,
            SwitchButton::ZR => 0x200,
            SwitchButton::Plus => 0x400,
            SwitchButton::Minus => 0x800,
            SwitchButton::DL => 0x1000,
            SwitchButton::DU => 0x2000,
            SwitchButton::DR => 0x4000,
            SwitchButton::DD => 0x8000,
            SwitchButton::LL => 0x1_0000,
            SwitchButton::LU => 0x2_0000,
            SwitchButton::LR => 0x4_0000,
            SwitchButton::LD => 0x8_0000,
            SwitchButton::RL => 0x10_0000,
            SwitchButton::RU => 0x20_0000,
            SwitchButton::RR => 0x40_0000,
            SwitchButton::RD => 0x80_0000,
            SwitchButton::SLL => 0x100_0000,
            SwitchButton::SRL => 0x200_0000,
            SwitchButton::SLR => 0x400_0000,
            SwitchButton::SRR => 0x800_0000,
        }
    }

    /// Returns the mask bit corresponding to this button.
    pub fn value(&self) -> (v: i32)
        ensures
            v == self.spec_value(),
    {
        match self {
            SwitchButton::A => 0x1,
            SwitchButton::B => 0x2,
            SwitchButton::X => 0x4,
            SwitchButton::Y => 0x8,
            SwitchButton::LST => 0x10,
            SwitchButton::RST => 0x20,
            SwitchButton::L => 0x40,
            SwitchButton::R => 0x80,
            SwitchButton::ZL => 0x100,
            SwitchButton::ZR => 0x200,
            SwitchButton::Plus => 0x400,
            SwitchButton::Minus => 0x800,
            SwitchButton::DL => 0x1000,
            SwitchButton::DU => 0x2000,
            SwitchButton::DR => 0x4000,
            SwitchButton::DD => 0x8000,
            SwitchButton::LL => 0x1_0000,
            SwitchButton::LU => 0x2_0000,
            SwitchButton::LR => 0x4_0000,
            SwitchButton::LD => 0x8_0000,
            SwitchButton::RL => 0x10_0000,
            SwitchButton::RU => 0x20_0000,
            SwitchButton::RR => 0x40_0000,
            SwitchButton::RD => 0x80_0000,
            SwitchButton::SLL => 0x100_0000,
            SwitchButton::SRL => 0x200_0000,
            SwitchButton::SLR => 0x400_0000,
            SwitchButton::SRR => 0x800_0000,
        }
    }

    /// The total remap from a canonical button to a controller-slot button.
    ///
    /// Bumpers, triggers, Start/Select, and the d-pad map identically across
    /// kinds. The four face buttons differ: the pro kind keeps them on the
    /// face-button bits, while a single sideways grip repurposes them (its
    /// face buttons double as directional input, so they land on d-pad or
    /// rotated face positions).
    pub open spec fn spec_map_button(button: InputButton, switch_pad: SwitchPad) -> SwitchButton {
        match button {
            InputButton::DPadUp => SwitchButton::DU,
            InputButton::DPadRight => SwitchButton::DR,
            InputButton::DPadDown => SwitchButton::DD,
            InputButton::DPadLeft => SwitchButton::DL,
            InputButton::LeftBumper => SwitchButton::L,
            InputButton::RightBumper => SwitchButton::R,
            InputButton::LeftTrigger => SwitchButton::ZL,
            InputButton::RightTrigger => SwitchButton::ZR,
            InputButton::Start => SwitchButton::Plus,
            InputButton::Select => SwitchButton::Minus,
            InputButton::North => match switch_pad {
                SwitchPad::ProController => SwitchButton::X,
                SwitchPad::JoyConLSide => SwitchButton::DR,
                SwitchPad::JoyConRSide => SwitchButton::Y,
            },
            InputButton::East => match switch_pad {
                SwitchPad::ProController => SwitchButton::A,
                SwitchPad::JoyConLSide => SwitchButton::DD,
                SwitchPad::JoyConRSide => SwitchButton::X,
            },
            InputButton::South => match switch_pad {
                SwitchPad::ProController => SwitchButton::B,
                SwitchPad::JoyConLSide => SwitchButton::DL,
                SwitchPad::JoyConRSide => SwitchButton::A,
            },
            InputButton::West => match switch_pad {
                SwitchPad::ProController => SwitchButton::Y,
                SwitchPad::JoyConLSide => SwitchButton::DU,
                SwitchPad::JoyConRSide => SwitchButton::B,
            },
        }
    }

    /// Maps a canonical button to this slot kind's button. Total: every
    /// canonical button has a position for every kind.
    pub fn map_button(button: &InputButton, switch_pad: &SwitchPad) -> (r: SwitchButton)
        ensures
            r == Self::spec_map_button(*button, *switch_pad),
    {
        match button {
            InputButton::DPadUp => SwitchButton::DU,
            InputButton::DPadRight => SwitchButton::DR,
            InputButton::DPadDown => SwitchButton::DD,
            InputButton::DPadLeft => SwitchButton::DL,
            InputButton::LeftBumper => SwitchButton::L,
            InputButton::RightBumper => SwitchButton::R,
            InputButton::LeftTrigger => SwitchButton::ZL,
            InputButton::RightTrigger => SwitchButton::ZR,
            InputButton::Start => SwitchButton::Plus,
            InputButton::Select => SwitchButton::Minus,
            InputButton::North => match switch_pad {
                SwitchPad::ProController => SwitchButton::X,
                SwitchPad::JoyConLSide => SwitchButton::DR,
                SwitchPad::JoyConRSide => SwitchButton::Y,
            },
            InputButton::East => match switch_pad {
                SwitchPad::ProController => SwitchButton::A,
                SwitchPad::JoyConLSide => SwitchButton::DD,
                SwitchPad::JoyConRSide => SwitchButton::X,
            },
            InputButton::South => match switch_pad {
                SwitchPad::ProController => SwitchButton::B,
                SwitchPad::JoyConLSide => SwitchButton::DL,
                SwitchPad::JoyConRSide => SwitchButton::A,
            },
            InputButton::West => match switch_pad {
                SwitchPad::ProController => SwitchButton::Y,
                SwitchPad::JoyConLSide => SwitchButton::DU,
                SwitchPad::JoyConRSide => SwitchButton::B,
            },
        }
    }
}

/// Every button bit is one of the low 28.
pub proof fn lemma_button_value_in_mask(b: SwitchButton)
    ensures
        0 < b.spec_value() < KEYOUT_LIMIT,
{
}

/// The new mask after a button event: set the bit when the value is nonzero,
/// clear it otherwise.
pub open spec fn spec_set_del_bit(keyout: i32, bit: i32, value: i32) -> i32 {
    if value != 0 {
        keyout | bit
    } else {
        keyout & !bit
    }
}

/// Setting or clearing a bit keeps the mask inside its 28-bit range.
pub proof fn lemma_set_del_bit_in_range(keyout: i32, bit: i32, value: i32)
    requires
        0 <= keyout < KEYOUT_LIMIT,
        0 <= bit < KEYOUT_LIMIT,
    ensures
        0 <= spec_set_del_bit(keyout, bit, value) < KEYOUT_LIMIT,
{
    assert(0 <= keyout < 0x1000_0000 && 0 <= bit < 0x1000_0000 ==> 0 <= (keyout | bit)
        < 0x1000_0000 && 0 <= (keyout & !bit) < 0x1000_0000) by (bit_vector);
}

/// Pressing never toggles and releasing never depends on history: a nonzero
/// value leaves the bit set and a zero value leaves it clear, in both cases
/// whatever the mask held before.
pub proof fn lemma_set_del_bit_pins_bit(keyout: i32, bit: i32, value: i32)
    ensures
        spec_set_del_bit(keyout, bit, value) & bit == if value != 0 {
            bit
        } else {
            0
        },
{
    assert((keyout | bit) & bit == bit) by (bit_vector);
    assert((keyout & !bit) & bit == 0) by (bit_vector);
}

/// Applying the same button value twice is the same as applying it once: a
/// second press sets no new bit and a second release clears nothing more.
pub proof fn lemma_set_del_bit_idempotent(keyout: i32, bit: i32, value: i32)
    ensures
        spec_set_del_bit(spec_set_del_bit(keyout, bit, value), bit, value) == spec_set_del_bit(
            keyout,
            bit,
            value,
        ),
{
    assert((keyout | bit) | bit == (keyout | bit)) by (bit_vector);
    assert((keyout & !bit) & !bit == (keyout & !bit)) by (bit_vector);
}

/// One emulated controller slot.
///
/// The well-formedness invariant: a source is bound exactly when a kind is
/// set, an unbound pad is fully neutral, the mask stays within its 28 bits,
/// and the stick halves stay within the wire range.
pub struct EmulatedPad {
    pub gamepad_id: Option<usize>,
    pub switch_pad: Option<SwitchPad>,
    pub keyout: i32,
    pub left: (i32, i32),
    pub right: (i32, i32),
}

impl EmulatedPad {
    /// Whether a physical source is bound to this pad.
    pub open spec fn is_bound(&self) -> bool {
        self.gamepad_id is Some
    }

    /// The invariant every pad keeps: bound exactly when a kind is set,
    /// neutral while unbound, mask and sticks within their wire ranges.
    pub open spec fn wf(&self) -> bool {
        &&& self.gamepad_id is Some <==> self.switch_pad is Some
        &&& !self.is_bound() ==> self.keyout == 0 && self.left.0 == 0 && self.left.1 == 0
            && self.right.0 == 0 && self.right.1 == 0
        &&& 0 <= self.keyout < KEYOUT_LIMIT
        &&& -STICK_LIMIT <= self.left.0 <= STICK_LIMIT
        &&& -STICK_LIMIT <= self.left.1 <= STICK_LIMIT
        &&& -STICK_LIMIT <= self.right.0 <= STICK_LIMIT
        &&& -STICK_LIMIT <= self.right.1 <= STICK_LIMIT
    }

    /// The unbound, all-neutral pad.
    pub open spec fn spec_neutral() -> EmulatedPad {
        EmulatedPad {
            gamepad_id: None,
            switch_pad: None,
            keyout: 0,
            left: (0, 0),
            right: (0, 0),
        }
    }

    /// Constructs a pad that is neutral and not bound to anything.
    pub fn new() -> (pad: EmulatedPad)
        ensures
            pad == Self::spec_neutral(),
            pad.wf(),
    {
        EmulatedPad { gamepad_id: None, switch_pad: None, keyout: 0, left: (0, 0), right: (0, 0) }
    }

    pub fn get_gamepad_id(&self) -> (id: &Option<usize>)
        ensures
            *id == self.gamepad_id,
    {
        &self.gamepad_id
    }

    pub fn get_switch_pad(&self) -> (p: &Option<SwitchPad>)
        ensures
            *p == self.switch_pad,
    {
        &self.switch_pad
    }

    pub fn get_keyout(&self) -> (k: &i32)
        ensures
            *k == self.keyout,
    {
        &self.keyout
    }

    pub fn get_left(&self) -> (s: &(i32, i32))
        ensures
            *s == self.left,
    {
        &self.left
    }

    pub fn get_right(&self) -> (s: &(i32, i32))
        ensures
            *s == self.right,
    {
        &self.right
    }

    /// Binds a source to this pad with the given kind, resetting the mask
    /// and both sticks to neutral.
    pub fn connect(&mut self, gamepad_id: &usize, switch_pad: SwitchPad)
        ensures
            *final(self) == (EmulatedPad {
                gamepad_id: Some(*gamepad_id),
                switch_pad: Some(switch_pad),
                keyout: 0,
                left: (0, 0),
                right: (0, 0),
            }),
            final(self).wf(),
    {
        self.gamepad_id = Some(*gamepad_id);
        self.switch_pad = Some(switch_pad);
        self.keyout = 0;
        self.left = (0, 0);
        self.right = (0, 0);
    }

    /// Unbinds this pad and returns every field to neutral.
    pub fn disconnect(&mut self)
        ensures
            *final(self) == Self::spec_neutral(),
            final(self).wf(),
    {
        self.gamepad_id = None;
        self.switch_pad = None;
        self.keyout = 0;
        self.left = (0, 0);
        self.right = (0, 0);
    }

    /// The pad after one event is applied while bound.
    pub open spec fn spec_update(self, event: InputEvent) -> EmulatedPad {
        match event {
            InputEvent::GamepadButton(_, button, value) => {
                match self.switch_pad {
                    Some(kind) => EmulatedPad {
                        keyout: spec_set_del_bit(
                            self.keyout,
                            SwitchButton::spec_map_button(button, kind).spec_value(),
                            value,
                        ),
                        ..self
                    },
                    None => self,
                }
            },
            InputEvent::GamepadAxis(_, axis, value) => {
                match axis {
                    InputAxis::LeftX => EmulatedPad { left: (value, self.left.1), ..self },
                    InputAxis::LeftY => EmulatedPad { left: (self.left.0, value), ..self },
                    InputAxis::RightX => EmulatedPad { right: (value, self.right.1), ..self },
                    InputAxis::RightY => EmulatedPad { right: (self.right.0, value), ..self },
                }
            },
        }
    }

    /// Applies one event to this pad. Valid only while the pad is bound and
    /// the event comes from the bound source; axis values must already be in
    /// the wire range.
    pub fn update(&mut self, event: &InputEvent)
        requires
            old(self).wf(),
            old(self).is_bound(),
            old(self).gamepad_id == Some(event.spec_gamepad_id()),
            *event matches InputEvent::GamepadAxis(_, _, v) ==> -STICK_LIMIT <= v <= STICK_LIMIT,
        ensures
            *final(self) == old(self).spec_update(*event),
            final(self).wf(),
            final(self).gamepad_id == old(self).gamepad_id,
            final(self).switch_pad == old(self).switch_pad,
    {
        match event {
            InputEvent::GamepadButton(_, button, value) => self.update_keyout(button, value),
            InputEvent::GamepadAxis(_, axis, value) => self.update_axis(axis, value),
        }
    }

    /// Updates the mask for a button and its value: the bit chosen by the
    /// slot's kind is set when the value is nonzero and cleared otherwise.
    /// Does nothing while no kind is set.
    pub fn update_keyout(&mut self, button: &InputButton, value: &i32)
        requires
            old(self).wf(),
        ensures
            final(self).keyout == (match old(self).switch_pad {
                Some(kind) => spec_set_del_bit(
                    old(self).keyout,
                    SwitchButton::spec_map_button(*button, kind).spec_value(),
                    *value,
                ),
                None => old(self).keyout,
            }),
            final(self).gamepad_id == old(self).gamepad_id,
            final(self).switch_pad == old(self).switch_pad,
            final(self).left == old(self).left,
            final(self).right == old(self).right,
            final(self).wf(),
    {
        match &self.switch_pad {
            Some(kind) => {
                let pad_kind = *kind;
                let bit = SwitchButton::map_button(button, &pad_kind).value();
                proof {
                    lemma_button_value_in_mask(
                        SwitchButton::spec_map_button(*button, pad_kind),
                    );
                }
                self.set_del_bit(&bit, value);
            },
            None => {},
        }
    }

    /// Stores an already-scaled axis value into the matching stick half.
    /// Valid only while bound, so a neutral unbound pad stays neutral.
    pub fn update_axis(&mut self, axis: &InputAxis, value: &i32)
        requires
            old(self).wf(),
            old(self).is_bound(),
            -STICK_LIMIT <= *value <= STICK_LIMIT,
        ensures
            *final(self) == (match *axis {
                InputAxis::LeftX => EmulatedPad { left: (*value, old(self).left.1), ..*old(self) },
                InputAxis::LeftY => EmulatedPad { left: (old(self).left.0, *value), ..*old(self) },
                InputAxis::RightX => EmulatedPad {
                    right: (*value, old(self).right.1),
                    ..*old(self)
                },
                InputAxis::RightY => EmulatedPad {
                    right: (old(self).right.0, *value),
                    ..*old(self)
                },
            }),
            final(self).wf(),
    {
        match axis {
            InputAxis::LeftX => {
                self.left.0 = *value;
            },
            InputAxis::LeftY => {
                self.left.1 = *value;
            },
            InputAxis::RightX => {
                self.right.0 = *value;
            },
            InputAxis::RightY => {
                self.right.1 = *value;
            },
        }
    }

    /// Sets the given mask bit when the value is nonzero, clears it with the
    /// bit's complement otherwise. Valid only while bound.
    pub fn set_del_bit(&mut self, bit: &i32, value: &i32)
        requires
            old(self).wf(),
            old(self).is_bound(),
            0 <= *bit < KEYOUT_LIMIT,
        ensures
            final(self).keyout == spec_set_del_bit(old(self).keyout, *bit, *value),
            final(self).gamepad_id == old(self).gamepad_id,
            final(self).switch_pad == old(self).switch_pad,
            final(self).left == old(self).left,
            final(self).right == old(self).right,
            final(self).wf(),
    {
        proof {
            lemma_set_del_bit_in_range(self.keyout, *bit, *value);
        }
        if *value != 0 {
            self.keyout = self.keyout | *bit;
        } else {
            self.keyout = self.keyout & !*bit;
        }
    }
}

/// Applying one button event twice in a row leaves the pad exactly as after
/// the first application: a press sets its bit once with no toggle, and a
/// release clears it regardless of the prior mask.
pub proof fn lemma_button_event_idempotent(pad: EmulatedPad, event: InputEvent)
    requires
        event matches InputEvent::GamepadButton(_, _, _),
    ensures
        pad.spec_update(event).spec_update(event) == pad.spec_update(event),
{
    match event {
        InputEvent::GamepadButton(_, button, value) => {
            match pad.switch_pad {
                Some(kind) => {
                    let bit = SwitchButton::spec_map_button(button, kind).spec_value();
                    lemma_set_del_bit_idempotent(pad.keyout, bit, value);
                },
                None => {},
            }
        },
        InputEvent::GamepadAxis(_, _, _) => {},
    }
}

} // verus!
