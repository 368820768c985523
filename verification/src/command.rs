//! Commands that HomeCore sends to devices and scenes.

use crate::json::{
    bool_member, bool_member_of, member, real_member, real_member_of, shape, unsigned_member,
    unsigned_member_of, Shape,
};
use crate::number::Number;
use vstd::prelude::*;

verus! {

/// A request to set a button's LED. A part that is missing or of another kind is not there.
#[derive(Clone, Copy, Debug, PartialEq, Eq, Structural)]
pub struct SetLed {
    pub button: Option<u64>,
    pub state: Option<u64>,
}

/// A command payload: the members that devices and scenes understand. A member that is missing
/// or of another kind is not there.
#[derive(Clone, Copy, Debug, PartialEq, Eq, Structural)]
pub struct Command {
    /// Fade time in seconds.
    pub fade_secs: Option<Number>,
    /// Brightness in percent.
    pub brightness_pct: Option<Number>,
    /// Brightness in percent, or out of 255 where it is over one hundred.
    pub brightness: Option<Number>,
    /// Switch on or off.
    pub on: Option<bool>,
    /// Shade position in percent.
    pub position: Option<Number>,
    pub raise: Option<bool>,
    pub lower: Option<bool>,
    pub stop: Option<bool>,
    /// Set the LED of a keypad button.
    pub set_led: Option<SetLed>,
    /// Press and release a button, by its component number.
    pub press_button: Option<u64>,
    /// Activate a scene.
    pub activate: Option<bool>,
}

impl Command {
    /// Whether every number of the command is finite.
    pub open spec fn has_finite_numbers(self) -> bool {
        &&& self.fade_secs is Some ==> self.fade_secs->0.is_finite_spec()
        &&& self.brightness_pct is Some ==> self.brightness_pct->0.is_finite_spec()
        &&& self.brightness is Some ==> self.brightness->0.is_finite_spec()
        &&& self.position is Some ==> self.position->0.is_finite_spec()
    }
}

/// A number by its optional bit pattern.
pub open spec fn number_of(bits: Option<u64>) -> Option<Number> {
    match bits {
        Some(bits) => Some(Number { bits }),
        None => None,
    }
}

fn number(bits: Option<u64>) -> (r: Option<Number>)
    ensures
        r == number_of(bits),
{
    match bits {
        Some(bits) => Some(Number { bits }),
        None => None,
    }
}

/// The LED request in a payload: there if the member is there, whatever it holds.
pub open spec fn set_led_of(payload: serde_json::Value) -> Option<SetLed> {
    match shape(payload) {
        Shape::Object(members) => if members.contains_key("set_led"@) {
            Some(
                SetLed {
                    button: unsigned_member_of(members["set_led"@], "button"@),
                    state: unsigned_member_of(members["set_led"@], "state"@),
                },
            )
        } else {
            None
        },
        _ => None,
    }
}

/// The button that a payload asks to press: the `button` of the request, if the request is there.
pub open spec fn press_button_of(payload: serde_json::Value) -> Option<u64> {
    match shape(payload) {
        Shape::Object(members) => if members.contains_key("press_button"@) {
            unsigned_member_of(members["press_button"@], "button"@)
        } else {
            None
        },
        _ => None,
    }
}

/// The command that a JSON payload stands for.
pub open spec fn command_of(payload: serde_json::Value) -> Command {
    Command {
        fade_secs: number_of(real_member_of(payload, "fade_secs"@)),
        brightness_pct: number_of(real_member_of(payload, "brightness_pct"@)),
        brightness: number_of(real_member_of(payload, "brightness"@)),
        on: bool_member_of(payload, "on"@),
        position: number_of(real_member_of(payload, "position"@)),
        raise: bool_member_of(payload, "raise"@),
        lower: bool_member_of(payload, "lower"@),
        stop: bool_member_of(payload, "stop"@),
        set_led: set_led_of(payload),
        press_button: press_button_of(payload),
        activate: bool_member_of(payload, "activate"@),
    }
}

/// A command without any member.
pub open spec fn empty_command() -> Command {
    Command {
        fade_secs: None,
        brightness_pct: None,
        brightness: None,
        on: None,
        position: None,
        raise: None,
        lower: None,
        stop: None,
        set_led: None,
        press_button: None,
        activate: None,
    }
}

/// Reads a command from a JSON payload. Its numbers are finite, as all JSON numbers are.
pub fn read_command(payload: &serde_json::Value) -> (r: Command)
    ensures
        r == command_of(*payload),
        r.has_finite_numbers(),
{
    let set_led = match member(payload, "set_led") {
        Some(request) => Some(
            SetLed {
                button: unsigned_member(request, "button"),
                state: unsigned_member(request, "state"),
            },
        ),
        None => None,
    };
    let press_button = match member(payload, "press_button") {
        Some(request) => unsigned_member(request, "button"),
        None => None,
    };
    Command {
        fade_secs: number(real_member(payload, "fade_secs")),
        brightness_pct: number(real_member(payload, "brightness_pct")),
        brightness: number(real_member(payload, "brightness")),
        on: bool_member(payload, "on"),
        position: number(real_member(payload, "position")),
        raise: bool_member(payload, "raise"),
        lower: bool_member(payload, "lower"),
        stop: bool_member(payload, "stop"),
        set_led,
        press_button,
        activate: bool_member(payload, "activate"),
    }
}

/// A payload that is no JSON object carries no command.
pub proof fn only_objects_carry_commands(payload: serde_json::Value)
    requires
        !(shape(payload) is Object),
    ensures
        command_of(payload) == empty_command(),
{
}

/// Each switch of a command is the boolean of exactly its name in the payload, and not there if
/// that is missing or no boolean.
pub proof fn switches_are_read_by_name(
    payload: serde_json::Value,
    members: Map<Seq<char>, serde_json::Value>,
)
    requires
        shape(payload) == Shape::Object(members),
    ensures
        command_of(payload).on == (if members.contains_key("on"@) && shape(
            members["on"@],
        ) is Bool {
            Some(shape(members["on"@])->Bool_0)
        } else {
            None
        }),
        command_of(payload).raise == (if members.contains_key("raise"@) && shape(
            members["raise"@],
        ) is Bool {
            Some(shape(members["raise"@])->Bool_0)
        } else {
            None
        }),
        command_of(payload).lower == (if members.contains_key("lower"@) && shape(
            members["lower"@],
        ) is Bool {
            Some(shape(members["lower"@])->Bool_0)
        } else {
            None
        }),
        command_of(payload).stop == (if members.contains_key("stop"@) && shape(
            members["stop"@],
        ) is Bool {
            Some(shape(members["stop"@])->Bool_0)
        } else {
            None
        }),
        command_of(payload).activate == (if members.contains_key("activate"@) && shape(
            members["activate"@],
        ) is Bool {
            Some(shape(members["activate"@])->Bool_0)
        } else {
            None
        }),
{
}

/// Each number of a command is the number of exactly its name in the payload, and not there if that
/// is missing or no number.
pub proof fn numbers_are_read_by_name(
    payload: serde_json::Value,
    members: Map<Seq<char>, serde_json::Value>,
    bits: u64,
)
    requires
        shape(payload) == Shape::Object(members),
    ensures
        command_of(payload).fade_secs == Some(Number { bits }) <==> members.contains_key(
            "fade_secs"@,
        ) && shape(members["fade_secs"@]) is Number && shape(members["fade_secs"@])->real_bits == Some(
            bits,
        ),
        command_of(payload).brightness_pct == Some(Number { bits }) <==> members.contains_key(
            "brightness_pct"@,
        ) && shape(members["brightness_pct"@]) is Number && shape(members["brightness_pct"@])->real_bits == Some(
            bits,
        ),
        command_of(payload).brightness == Some(Number { bits }) <==> members.contains_key(
            "brightness"@,
        ) && shape(members["brightness"@]) is Number && shape(members["brightness"@])->real_bits == Some(
            bits,
        ),
        command_of(payload).position == Some(Number { bits }) <==> members.contains_key(
            "position"@,
        ) && shape(members["position"@]) is Number && shape(members["position"@])->real_bits == Some(
            bits,
        ),
{
}

/// A request to set an LED or to press a button is there if its member is, and names what the
/// unsigned integers of its own members name.
pub proof fn requests_are_read_by_name(
    payload: serde_json::Value,
    members: Map<Seq<char>, serde_json::Value>,
)
    requires
        shape(payload) == Shape::Object(members),
    ensures
        command_of(payload).set_led is Some <==> members.contains_key("set_led"@),
        members.contains_key("set_led"@) ==> command_of(payload).set_led->0.button
            == unsigned_member_of(members["set_led"@], "button"@),
        members.contains_key("set_led"@) ==> command_of(payload).set_led->0.state
            == unsigned_member_of(members["set_led"@], "state"@),
        members.contains_key("press_button"@) ==> command_of(payload).press_button
            == unsigned_member_of(members["press_button"@], "button"@),
        !members.contains_key("press_button"@) ==> command_of(payload).press_button is None,
{
}

/// The numbers of a command are finite: no exponent field is all ones.
pub proof fn finite_commands_hold_finite_numbers(cmd: Command, x: Number)
    requires
        cmd.has_finite_numbers(),
        cmd.fade_secs == Some(x) || cmd.brightness_pct == Some(x) || cmd.brightness == Some(x)
            || cmd.position == Some(x),
    ensures
        (x.bits / 0x10_0000_0000_0000) % 0x800 != 0x7FF,
{
}

/// What is no object asks for nothing at all.
pub proof fn other_payloads_ask_for_nothing(payload: serde_json::Value)
    requires
        !(shape(payload) is Object),
    ensures
        ({
            let cmd = command_of(payload);
            &&& cmd.fade_secs is None && cmd.brightness_pct is None && cmd.brightness is None
            &&& cmd.on is None && cmd.position is None && cmd.raise is None && cmd.lower is None
            &&& cmd.stop is None && cmd.set_led is None && cmd.press_button is None
            &&& cmd.activate is None
        }),
{
}

} // verus!
