//! Messages of the Lutron Integration Protocol, in both directions.

use crate::number::{Number, HUNDRED_BITS, ZERO_BITS};
use vstd::prelude::*;

verus! {

/// Action number of a button press.
pub const ACTION_PRESS: u32 = 3;

/// Action number of a button release.
pub const ACTION_RELEASE: u32 = 4;

/// Action number that starts raising a shade.
pub const SHADE_RAISE: u32 = 2;

/// Action number that starts lowering a shade.
pub const SHADE_LOWER: u32 = 3;

/// Action number that stops a shade.
pub const SHADE_STOP: u32 = 4;

/// Distance from a keypad button's component number to that of its LED.
pub const LED_OFFSET: u32 = 80;

/// Distance from a phantom button's component number to that of its LED.
pub const SCENE_LED_OFFSET: u32 = 100;

/// Highest LED state: off, on, flashing, flashing rapidly.
pub const LED_STATE_MAX: u64 = 3;

/// What an output reports on.
#[derive(Clone, Copy, Debug, PartialEq, Eq, Structural)]
pub enum OutputAction {
    /// The level of the zone.
    ZoneLevel,
    /// Anything else, by its action number.
    Other(u32),
}

/// State of an occupancy group.
#[derive(Clone, Copy, Debug, PartialEq, Eq, Structural)]
pub enum OccupancyState {
    Occupied,
    Unoccupied,
    Unknown,
}

/// What a component of a device reports.
#[derive(Clone, Copy, Debug, PartialEq, Eq, Structural)]
pub enum DeviceAction {
    Press,
    Release,
    DoubleClick,
    /// The state of an LED.
    Led(u8),
}

/// A line from the repeater.
#[derive(Clone, Debug)]
pub enum LipMessage {
    Output { integration_id: u32, action: OutputAction, value: Number },
    Group { integration_id: u32, state: OccupancyState },
    Device { integration_id: u32, component: u32, action: DeviceAction },
    Prompt,
    Error(String),
    Unknown(String),
}

/// A level to set, as a final number or as the number it is computed from.
#[derive(Clone, Copy, Debug, PartialEq, Eq, Structural)]
pub enum Level {
    /// This level.
    Exact(Number),
    /// A brightness out of 255: the level is the number over 255, times one hundred, clamped.
    FromByte(Number),
    /// A position counted from the other end: the level is one hundred less the number, clamped.
    Inverted(Number),
}

impl Level {
    /// The level that is sent, given the number that the arithmetic gave where there is any.
    pub open spec fn settled(self, computed: Number) -> Number {
        match self {
            Level::Exact(x) => x,
            Level::FromByte(_) => computed.clamped(),
            Level::Inverted(_) => computed.clamped(),
        }
    }

    /// Whether the level that is sent lies between zero and one hundred, whatever number the
    /// arithmetic gave.
    pub open spec fn settles_in_range(self) -> bool {
        forall|computed: Number|
            !computed.is_nan_spec() ==> (#[trigger] self.settled(computed)).is_level()
    }

    /// Settles the level that is sent: the exact one, else the computed number, clamped.
    pub fn settle(self, computed: Number) -> (r: Number)
        ensures
            r == self.settled(computed),
    {
        match self {
            Level::Exact(x) => x,
            Level::FromByte(_) => computed.clamp_percent(),
            Level::Inverted(_) => computed.clamp_percent(),
        }
    }
}

/// A command to the repeater.
#[derive(Clone, Copy, Debug, PartialEq, Eq, Structural)]
pub enum LipCommand {
    /// Bring an output to a level over a fade time in seconds.
    SetLevel { integration_id: u32, level: Level, fade_secs: Number },
    /// Start or stop moving a shade.
    ShadeAction { integration_id: u32, action: u32 },
    /// Set the LED at a component.
    DeviceLed { integration_id: u32, component: u32, state: u8 },
    /// Act on a component as if its button were used.
    DeviceAction { integration_id: u32, component: u32, action: u32 },
    /// Ask for the level of an output.
    QueryOutput { integration_id: u32 },
    /// Ask for the state of an occupancy group.
    QueryGroup { integration_id: u32 },
    /// Ask for the state of the LED at a component.
    QueryLed { integration_id: u32, component: u32 },
}

/// The number zero.
pub open spec fn zero() -> Number {
    Number { bits: ZERO_BITS }
}

/// The number one hundred.
pub open spec fn hundred() -> Number {
    Number { bits: HUNDRED_BITS }
}

/// The component number of the LED that belongs to a button, where there is such a number.
pub open spec fn led_component(button: u32) -> Option<u32> {
    if button + LED_OFFSET <= u32::MAX {
        Some((button + LED_OFFSET) as u32)
    } else {
        None
    }
}

/// The component number of a keypad button's LED: eighty past the button.
pub fn led_component_for_button(button: u32) -> (r: Option<u32>)
    ensures
        r == led_component(button),
{
    button.checked_add(LED_OFFSET)
}

/// The LED of a button stands eighty components past it, and there is none past the last component
/// number.
pub proof fn leds_stand_eighty_past_their_buttons(button: u32, component: u32)
    ensures
        led_component(button) == Some(component) <==> component == button + 80,
        led_component(button) is None <==> button > 4294967215,
{
}

/// An exact level is sent as it stands, whatever was computed; any other level is the computed
/// number, no less than zero and no more than a hundred.
pub proof fn levels_settle_on_the_computed_number(x: Number, computed: Number)
    ensures
        Level::Exact(x).settled(computed) == x,
        Level::FromByte(x).settled(computed) == Level::Inverted(x).settled(computed),
        computed.is_level() ==> Level::FromByte(x).settled(computed) == computed,
        computed.less_spec(Number { bits: 0 }) ==> Level::FromByte(x).settled(computed).bits == 0,
        (Number { bits: 0x4059_0000_0000_0000 }).less_spec(computed) ==> Level::FromByte(
            x,
        ).settled(computed).bits == 0x4059_0000_0000_0000,
        zero().bits == 0,
        hundred().bits == 0x4059_0000_0000_0000,
{
}

/// A level that settles in range is never sent below zero or above a hundred.
pub proof fn settled_levels_are_in_range(level: Level, computed: Number)
    requires
        level.settles_in_range(),
        !computed.is_nan_spec(),
    ensures
        !level.settled(computed).is_nan_spec(),
        !level.settled(computed).less_spec(Number { bits: 0 }),
        !(Number { bits: 0x4059_0000_0000_0000 }).less_spec(level.settled(computed)),
{
    assert(level.settled(computed).is_level());
}

} // verus!
