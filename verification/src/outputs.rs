//! Models of the two actuators that the controller owns.
//!
//! Both are level-driven: an operation fixes the level whatever it was
//! before, so repeating an operation changes nothing.

use vstd::prelude::*;
use crate::signal::{Color, Command};

verus! {

/// The on/off actuator of the blower.
#[derive(Clone, Copy, Debug, PartialEq, Eq, Structural)]
pub struct PowerOutput {
    /// Whether the blower is driven.
    pub on: bool,
}

impl PowerOutput {
    /// The actuator after its level was set to `on`.
    pub open spec fn switched(self, on: bool) -> PowerOutput {
        PowerOutput { on }
    }

    /// An actuator that is off.
    pub fn new() -> (p: PowerOutput)
        ensures
            p == (PowerOutput { on: false }),
    {
        PowerOutput { on: false }
    }

    /// Turns the blower on.
    pub fn set_on(&mut self)
        ensures
            *final(self) == old(self).switched(true),
    {
        self.on = true;
    }

    /// Turns the blower off.
    pub fn set_off(&mut self)
        ensures
            *final(self) == old(self).switched(false),
    {
        self.on = false;
    }

    /// Whether the blower is driven.
    pub fn is_on(&self) -> (on: bool)
        ensures
            on == self.on,
    {
        self.on
    }

    /// Setting the same level twice in a row leaves the actuator as setting
    /// it once does.
    pub proof fn lemma_switch_idempotent(self, on: bool)
        ensures
            self.switched(on).switched(on) == self.switched(on),
            self.switched(on).on == on,
    {
    }
}

/// The status indicator.
#[derive(Clone, Copy, Debug, PartialEq, Eq, Structural)]
pub struct IndicatorLight {
    /// The color on display.
    pub color: Color,
}

impl IndicatorLight {
    /// The indicator after it was told to show `color`.
    pub open spec fn showing(self, color: Color) -> IndicatorLight {
        IndicatorLight { color }
    }

    /// A dark indicator.
    pub fn new() -> (l: IndicatorLight)
        ensures
            l == (IndicatorLight { color: Color::Off }),
    {
        IndicatorLight { color: Color::Off }
    }

    /// Shows `color`.
    pub fn set_color(&mut self, color: Color)
        ensures
            *final(self) == old(self).showing(color),
    {
        self.color = color;
    }

    /// The color on display.
    pub fn color(&self) -> (c: Color)
        ensures
            c == self.color,
    {
        self.color
    }

    /// Showing the same color twice in a row leaves the indicator as showing
    /// it once does.
    pub proof fn lemma_show_idempotent(self, color: Color)
        ensures
            self.showing(color).showing(color) == self.showing(color),
            self.showing(color).color == color,
    {
    }
}

/// Brings both actuators to the levels that `command` asks for.
pub fn drive(command: &Command, power: &mut PowerOutput, light: &mut IndicatorLight)
    ensures
        *final(power) == old(power).switched(command.power_on),
        *final(light) == old(light).showing(command.color),
{
    if command.power_on {
        power.set_on();
    } else {
        power.set_off();
    }
    light.set_color(command.color);
}

/// Carrying out a command twice in a row leaves both actuators as carrying
/// it out once does.
pub proof fn lemma_drive_idempotent(command: Command, power: PowerOutput, light: IndicatorLight)
    ensures
        power.switched(command.power_on).switched(command.power_on) == power.switched(
            command.power_on,
        ),
        light.showing(command.color).showing(command.color) == light.showing(command.color),
{
}

} // verus!
