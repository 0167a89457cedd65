//! Client configuration: the kind each of the four slots emulates, and
//! whether a fallback raw-input capture backend should also be polled.
//!
//! A slot configured with no kind is permanently ineligible for assignment.
//! Reading and writing the configuration file is the caller's business; the
//! library consumes the values read-only.

use vstd::prelude::*;

use crate::pad::SwitchPad;

verus! {

/// Per-slot desired controller kinds, plus the fallback-backend flag.
pub struct Config {
    pub rawinput_fallback: bool,
    pub switch_pad_1: Option<SwitchPad>,
    pub switch_pad_2: Option<SwitchPad>,
    pub switch_pad_3: Option<SwitchPad>,
    pub switch_pad_4: Option<SwitchPad>,
}

impl Config {
    /// The four slot kinds in slot order.
    pub open spec fn spec_pads(&self) -> Seq<Option<SwitchPad>> {
        seq![self.switch_pad_1, self.switch_pad_2, self.switch_pad_3, self.switch_pad_4]
    }

    /// Whether the fallback raw-input backend should also be polled.
    pub fn get_rawinput_fallback(&self) -> (r: bool)
        ensures
            r == self.rawinput_fallback,
    {
        self.rawinput_fallback
    }

    /// Returns the configured kind of each slot, in slot order.
    pub fn pads_to_vec(&self) -> (v: Vec<Option<SwitchPad>>)
        ensures
            v@ == self.spec_pads(),
    {
        let mut v: Vec<Option<SwitchPad>> = Vec::new();
        v.push(self.switch_pad_1);
        v.push(self.switch_pad_2);
        v.push(self.switch_pad_3);
        v.push(self.switch_pad_4);
        proof {
            assert(v@ =~= self.spec_pads());
        }
        v
    }
}

impl Default for Config {
    /// The default configuration: poll the fallback backend, and emulate the
    /// pro kind in all four slots.
    fn default() -> (c: Config)
        ensures
            c.rawinput_fallback,
            c.spec_pads() == seq![
                Some(SwitchPad::ProController),
                Some(SwitchPad::ProController),
                Some(SwitchPad::ProController),
                Some(SwitchPad::ProController),
            ],
    {
        Config {
            rawinput_fallback: true,
            switch_pad_1: Some(SwitchPad::ProController),
            switch_pad_2: Some(SwitchPad::ProController),
            switch_pad_3: Some(SwitchPad::ProController),
            switch_pad_4: Some(SwitchPad::ProController),
        }
    }
}

} // verus!
