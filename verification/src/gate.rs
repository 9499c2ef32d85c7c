//! The capture gate: an optional physical switch with an indicator LED.
//!
//! A configured switch is read through one digital input pin, with one
//! digital output pin as indicator.
//! Which input level permits capture is set by a polarity flag that an
//! external process signal can flip; the pending toggle is consumed exactly
//! once per tick. The pin reads and writes themselves happen outside this
//! crate; the controller here holds the polarity and a model of the level
//! most recently driven on the indicator, and decides permission from the
//! level that was read.

use vstd::prelude::*;

verus! {

/// Controller state for an enabled gate: the active-low polarity flag and the
/// level most recently driven on the indicator LED.
#[derive(Clone, Copy, Debug, PartialEq, Eq, Structural)]
pub struct GpioPins {
    /// True while the switch is active-low: capture is permitted when the
    /// input reads low.
    pub check_low: bool,
    /// The level most recently driven on the indicator output.
    pub led_on: bool,
}

impl GpioPins {
    /// A fresh controller starts active-low with the indicator off.
    pub fn new() -> (g: GpioPins)
        ensures
            g.check_low,
            !g.led_on,
    {
        GpioPins { check_low: true, led_on: false }
    }

    /// Decide whether recording is permitted this tick.
    ///
    /// `toggle_pending` is the just-consumed polarity-toggle flag: when set,
    /// the polarity flips before the decision. `input_low` is the level read
    /// from the switch pin. Permission holds exactly when the (possibly
    /// flipped) polarity matches the input level, and the indicator mirrors
    /// the decision.
    pub fn can_record(&mut self, toggle_pending: bool, input_low: bool) -> (permitted: bool)
        ensures
            final(self).check_low == (old(self).check_low != toggle_pending),
            permitted == (final(self).check_low == input_low),
            final(self).led_on == permitted,
    {
        if toggle_pending {
            self.check_low = !self.check_low;
        }
        let permitted = self.check_low == input_low;
        self.set_led(permitted);
        permitted
    }

    /// Drive the indicator model to the given level.
    pub fn set_led(&mut self, on: bool)
        ensures
            final(self).check_low == old(self).check_low,
            final(self).led_on == on,
    {
        self.led_on = on;
    }
}

/// The whole gate subsystem: either both pins were acquired, or no gate is
/// configured (or acquisition failed) and capture is always permitted.
#[derive(Clone, Copy, Debug, PartialEq, Eq, Structural)]
pub enum Gate {
    /// Both pins were acquired; the controller decides permission.
    Enabled { pins: GpioPins },
    /// No switch pin is configured, or acquisition failed: capture is always
    /// permitted and no LED is driven.
    Disabled,
}

/// A verdict for one tick: whether capture may proceed, and the
/// level to drive on the indicator pin (`None` when no gate is present).
#[derive(Clone, Copy, Debug, PartialEq, Eq, Structural)]
pub struct GateDecision {
    pub permitted: bool,
    pub drive_led: Option<bool>,
}

impl Gate {
    /// Consume the pending toggle flag and the input level read this tick,
    /// and decide whether capture is permitted. A disabled gate ignores both
    /// arguments, always permits, and drives no LED.
    pub fn tick(&mut self, toggle_pending: bool, input_low: bool) -> (d: GateDecision)
        ensures
            *old(self) is Disabled ==> *final(self) is Disabled && d.permitted && d.drive_led
                is None,
            *old(self) matches Gate::Enabled { pins: p0 } ==> *final(self) matches Gate::Enabled {
                pins: p1,
            } && p1.check_low == (p0.check_low != toggle_pending) && d.permitted == (p1.check_low
                == input_low) && p1.led_on == d.permitted && d.drive_led == Some(d.permitted),
    {
        match self {
            Gate::Disabled => GateDecision { permitted: true, drive_led: None },
            Gate::Enabled { pins } => {
                let permitted = pins.can_record(toggle_pending, input_low);
                GateDecision { permitted, drive_led: Some(permitted) }
            },
        }
    }
}

} // verus!
