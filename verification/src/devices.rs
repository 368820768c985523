//! Device registry entries, and the translation of states and commands.

use crate::command::{command_of, read_command, Command, SetLed};
use crate::config::{scene_hc_id, DeviceConfig, DeviceKind, SceneConfig, TimeclockConfig};
use crate::number::Number;
use crate::patch::{
    flag, optional_patch_view, patch_view, Attribute, AttributeView, PatchValue, PatchValueView,
};
use crate::protocol::{
    hundred, led_component, led_component_for_button, zero, Level, LipCommand, LED_STATE_MAX,
    SHADE_LOWER, SHADE_RAISE, SHADE_STOP,
};
use crate::text::{
    decimal, decimal_digits, decimal_digits_are_digits, decimal_digits_injective, prefixed,
};
use vstd::prelude::*;

verus! {

/// A device together with its HomeCore identity.
pub struct DeviceEntry {
    pub config: DeviceConfig,
    /// `lutron_` and the integration ID.
    pub hc_id: String,
}

/// HomeCore device ID of a device by its integration ID.
pub open spec fn device_hc_id(integration_id: u32) -> Seq<char> {
    "lutron_"@ + decimal_digits(integration_id as nat)
}

/// HomeCore device type of each kind of device.
pub open spec fn device_type_of(kind: DeviceKind) -> Seq<char> {
    match kind {
        DeviceKind::Dimmer => "light"@,
        DeviceKind::Switch => "switch"@,
        DeviceKind::Shade => "cover"@,
        DeviceKind::Keypad => "button"@,
        DeviceKind::Pico => "button"@,
        DeviceKind::OccupancyGroup => "occupancy_sensor"@,
        DeviceKind::Vcrx => "button"@,
    }
}

/// Whether a kind of device has a level that can be queried.
pub open spec fn output_kind(kind: DeviceKind) -> bool {
    kind == DeviceKind::Dimmer || kind == DeviceKind::Switch || kind == DeviceKind::Shade
}

/// Whether a kind of device has buttons.
pub open spec fn button_kind(kind: DeviceKind) -> bool {
    kind == DeviceKind::Keypad || kind == DeviceKind::Pico || kind == DeviceKind::Vcrx
}

/// Whether a kind of device has buttons that commands can press.
pub open spec fn pressable_kind(kind: DeviceKind) -> bool {
    kind == DeviceKind::Keypad || kind == DeviceKind::Vcrx
}

/// Whether events of a component are button events: the device has buttons, and the component is
/// not a contact closure input of a receiver.
pub open spec fn button_component_of(config: DeviceConfig, component: u32) -> bool {
    button_kind(config.kind) && !(config.kind == DeviceKind::Vcrx && config.ccis@.contains(
        component,
    ))
}

/// Fade time of a device: its own, else the global one.
pub open spec fn effective_fade(config: DeviceConfig, global: Number) -> Number {
    match config.fade_secs {
        Some(secs) => secs,
        None => global,
    }
}

/// The state of an output at a level; devices without a level have none.
pub open spec fn output_patch(config: DeviceConfig, level: Number) -> Option<Seq<AttributeView>> {
    let on = AttributeView { name: "on"@, value: PatchValueView::Flag(zero().less_spec(level)) };
    match config.kind {
        DeviceKind::Dimmer => Some(
            seq![
                on,
                AttributeView { name: "brightness_pct"@, value: PatchValueView::Tenths(level) },
                AttributeView { name: "brightness"@, value: PatchValueView::Byte(level) },
            ],
        ),
        DeviceKind::Switch => Some(seq![on]),
        DeviceKind::Shade => Some(
            seq![
                AttributeView {
                    name: "position"@,
                    value: if config.invert_position {
                        PatchValueView::InvertedTenths(level)
                    } else {
                        PatchValueView::Tenths(level)
                    },
                },
            ],
        ),
        _ => None,
    }
}

/// The state of an occupancy sensor.
pub open spec fn occupancy_patch(occupied: bool) -> Seq<AttributeView> {
    seq![
        AttributeView { name: "occupied"@, value: PatchValueView::Flag(occupied) },
        AttributeView { name: "occupancy"@, value: PatchValueView::Flag(occupied) },
    ]
}

/// The level that a command asks of a dimmer: a percentage goes before a brightness, and a
/// brightness before switching on or off. A brightness over one hundred counts out of 255.
pub open spec fn dimmer_level(cmd: Command) -> Option<Level> {
    if cmd.brightness_pct is Some {
        Some(Level::Exact(cmd.brightness_pct->0.clamped()))
    } else if cmd.brightness is Some {
        if hundred().less_spec(cmd.brightness->0) {
            Some(Level::FromByte(cmd.brightness->0))
        } else {
            Some(Level::Exact(cmd.brightness->0.clamped()))
        }
    } else {
        switch_level(cmd)
    }
}

/// The level that a command asks of a switch.
pub open spec fn switch_level(cmd: Command) -> Option<Level> {
    match cmd.on {
        Some(true) => Some(Level::Exact(hundred())),
        Some(false) => Some(Level::Exact(zero())),
        None => None,
    }
}

/// The shade movement that a command asks for: raising goes before lowering, and lowering before
/// stopping.
pub open spec fn shade_movement(cmd: Command) -> Option<u32> {
    if cmd.raise == Some(true) {
        Some(SHADE_RAISE)
    } else if cmd.lower == Some(true) {
        Some(SHADE_LOWER)
    } else if cmd.stop == Some(true) {
        Some(SHADE_STOP)
    } else {
        None
    }
}

/// The shade level that a position stands for.
pub open spec fn shade_level(position: Number, inverted: bool) -> Level {
    if inverted {
        Level::Inverted(position)
    } else {
        Level::Exact(position.clamped())
    }
}

/// The lower 32 bits of a number.
pub open spec fn low32(n: u64) -> u32 {
    (n % 0x1_0000_0000) as u32
}

/// The button that an LED request names; zero stands for none.
pub open spec fn led_button(request: SetLed) -> u32 {
    match request.button {
        Some(n) => low32(n),
        None => 0,
    }
}

/// The LED state that a request asks for.
pub open spec fn led_state(request: SetLed) -> u8 {
    match request.state {
        Some(n) => if n <= LED_STATE_MAX {
            n as u8
        } else {
            LED_STATE_MAX as u8
        },
        None => 0,
    }
}

/// What an LED request sends: one command if it names a button that has an LED.
pub open spec fn led_commands(integration_id: u32, request: Option<SetLed>) -> Seq<LipCommand> {
    match request {
        Some(led) => match led_component(led_button(led)) {
            Some(component) => if led_button(led) > 0 {
                seq![LipCommand::DeviceLed { integration_id, component, state: led_state(led) }]
            } else {
                seq![]
            },
            None => seq![],
        },
        None => seq![],
    }
}

/// What setting an output to a level sends, if there is a level.
pub open spec fn level_commands(
    integration_id: u32,
    level: Option<Level>,
    fade_secs: Number,
) -> Seq<LipCommand> {
    match level {
        Some(level) => seq![LipCommand::SetLevel { integration_id, level, fade_secs }],
        None => seq![],
    }
}

/// What a command to a device sends to the repeater.
pub open spec fn device_commands(
    config: DeviceConfig,
    cmd: Command,
    global_fade: Number,
) -> Seq<LipCommand> {
    let integration_id = config.integration_id;
    match config.kind {
        DeviceKind::Dimmer => level_commands(
            integration_id,
            dimmer_level(cmd),
            match cmd.fade_secs {
                Some(secs) => secs,
                None => effective_fade(config, global_fade),
            },
        ),
        DeviceKind::Switch => level_commands(integration_id, switch_level(cmd), zero()),
        DeviceKind::Shade => if cmd.position is Some {
            level_commands(
                integration_id,
                Some(shade_level(cmd.position->0, config.invert_position)),
                zero(),
            )
        } else {
            match shade_movement(cmd) {
                Some(action) => seq![LipCommand::ShadeAction { integration_id, action }],
                None => seq![],
            }
        },
        DeviceKind::Keypad => led_commands(integration_id, cmd.set_led),
        DeviceKind::Vcrx => led_commands(integration_id, cmd.set_led),
        DeviceKind::Pico => seq![],
        DeviceKind::OccupancyGroup => seq![],
    }
}

/// The button of a device that a command presses. Pressing goes after setting an LED: a command
/// with an LED request that names a button presses none.
pub open spec fn pressed_button(config: DeviceConfig, cmd: Command) -> Option<u32> {
    let sets_led = cmd.set_led is Some && led_button(cmd.set_led->0) > 0;
    match cmd.press_button {
        Some(n) if pressable_kind(config.kind) && !sets_led && low32(n) > 0 => Some(low32(n)),
        _ => None,
    }
}

/// Whether every level that these commands set lies between zero and one hundred once it is
/// settled.
pub open spec fn levels_settle_in_range(commands: Seq<LipCommand>) -> bool {
    forall|i: int|
        0 <= i < commands.len() ==> match #[trigger] commands[i] {
            LipCommand::SetLevel { level, .. } => level.settles_in_range(),
            _ => true,
        }
}

/// Whether a list of component numbers holds a component.
fn contains_component(components: &Vec<u32>, component: u32) -> (r: bool)
    ensures
        r == components@.contains(component),
{
    let mut i: usize = 0;
    while i < components.len()
        invariant
            i <= components.len(),
            forall|j: int| 0 <= j < i ==> components@[j] != component,
        decreases components.len() - i,
    {
        if components[i] == component {
            return true;
        }
        i += 1;
    }
    false
}

/// Translates an LED request to a device.
fn translate_led(integration_id: u32, request: Option<SetLed>) -> (r: Vec<LipCommand>)
    ensures
        r@ == led_commands(integration_id, request),
{
    let mut commands: Vec<LipCommand> = Vec::new();
    if let Some(led) = request {
        let wide: u64 = led.button.unwrap_or(0);
        let button: u32 = (wide % 0x1_0000_0000) as u32;
        let asked: u64 = led.state.unwrap_or(0);
        let state: u8 = if asked <= LED_STATE_MAX {
            asked as u8
        } else {
            LED_STATE_MAX as u8
        };
        if button > 0 {
            if let Some(component) = led_component_for_button(button) {
                commands.push(LipCommand::DeviceLed { integration_id, component, state });
            }
        }
    }
    assert(commands@ =~= led_commands(integration_id, request));
    commands
}

impl DeviceEntry {
    /// A registry entry for a configured device.
    pub fn new(config: DeviceConfig) -> (r: Self)
        ensures
            r.config == config,
            r.hc_id@ == device_hc_id(config.integration_id),
    {
        let digits = decimal(config.integration_id);
        let hc_id = prefixed("lutron_", digits.as_str());
        DeviceEntry { config, hc_id }
    }

    /// HomeCore device type, as given on registration.
    pub fn homecore_device_type(&self) -> (r: &'static str)
        ensures
            r@ == device_type_of(self.config.kind),
    {
        match self.config.kind {
            DeviceKind::Dimmer => "light",
            DeviceKind::Switch => "switch",
            DeviceKind::Shade => "cover",
            DeviceKind::Keypad => "button",
            DeviceKind::Pico => "button",
            DeviceKind::OccupancyGroup => "occupancy_sensor",
            DeviceKind::Vcrx => "button",
        }
    }

    /// Whether this device has a level that can be queried.
    pub fn is_output(&self) -> (r: bool)
        ensures
            r == output_kind(self.config.kind),
    {
        matches!(self.config.kind, DeviceKind::Dimmer | DeviceKind::Switch | DeviceKind::Shade)
    }

    /// Whether this device is an occupancy group.
    pub fn is_group(&self) -> (r: bool)
        ensures
            r == (self.config.kind == DeviceKind::OccupancyGroup),
    {
        matches!(self.config.kind, DeviceKind::OccupancyGroup)
    }

    /// Whether this device emits button events.
    pub fn is_button_device(&self) -> (r: bool)
        ensures
            r == button_kind(self.config.kind),
    {
        matches!(self.config.kind, DeviceKind::Keypad | DeviceKind::Pico | DeviceKind::Vcrx)
    }

    /// Whether this device has contact closure inputs.
    pub fn has_ccis(&self) -> (r: bool)
        ensures
            r == (self.config.ccis@.len() > 0),
    {
        !self.config.ccis.is_empty()
    }

    /// Component numbers of the contact closure inputs.
    pub fn cci_components(&self) -> (r: &[u32])
        ensures
            r@ == self.config.ccis@,
    {
        self.config.ccis.as_slice()
    }

    /// Whether a component is a contact closure input of this device.
    pub fn is_cci_component(&self, component: u32) -> (r: bool)
        ensures
            r == self.config.ccis@.contains(component),
    {
        contains_component(&self.config.ccis, component)
    }

    /// Whether events of a component are button events.
    pub fn is_button_component(&self, component: u32) -> (r: bool)
        ensures
            r == button_component_of(self.config, component),
    {
        self.is_button_device() && !(matches!(self.config.kind, DeviceKind::Vcrx)
            && self.is_cci_component(component))
    }

    /// Component numbers of the buttons.
    pub fn button_components(&self) -> (r: &[u32])
        ensures
            r@ == self.config.buttons@,
    {
        self.config.buttons.as_slice()
    }

    /// Fade time in seconds: of this device, else the global one.
    pub fn fade_secs(&self, global: Number) -> (r: Number)
        ensures
            r == effective_fade(self.config, global),
    {
        self.config.fade_secs.unwrap_or(global)
    }

    /// Translates the level of an output to a state patch. Only outputs have one.
    pub fn translate_output_state(&self, level: Number) -> (r: Option<Vec<Attribute>>)
        ensures
            optional_patch_view(r) == output_patch(self.config, level),
    {
        let mut patch: Vec<Attribute> = Vec::new();
        match self.config.kind {
            DeviceKind::Dimmer => {
                patch.push(flag("on", Number::zero().less(level)));
                patch.push(
                    Attribute {
                        name: "brightness_pct".to_owned(),
                        value: PatchValue::Tenths(level),
                    },
                );
                patch.push(
                    Attribute { name: "brightness".to_owned(), value: PatchValue::Byte(level) },
                );
            },
            DeviceKind::Switch => {
                patch.push(flag("on", Number::zero().less(level)));
            },
            DeviceKind::Shade => {
                let value = if self.config.invert_position {
                    PatchValue::InvertedTenths(level)
                } else {
                    PatchValue::Tenths(level)
                };
                patch.push(Attribute { name: "position".to_owned(), value });
            },
            _ => {
                return None;
            },
        }
        assert(patch_view(patch@) =~= output_patch(self.config, level)->0);
        Some(patch)
    }

    /// Translates an occupancy state to a state patch.
    pub fn translate_occupancy_state(&self, occupied: bool) -> (r: Vec<Attribute>)
        ensures
            patch_view(r@) == occupancy_patch(occupied),
    {
        let mut patch: Vec<Attribute> = Vec::new();
        patch.push(flag("occupied", occupied));
        patch.push(flag("occupancy", occupied));
        assert(patch_view(patch@) =~= occupancy_patch(occupied));
        patch
    }

    /// Translates a command payload to what is sent to the repeater: nothing if the command does
    /// not apply to this kind of device. However far out of range a number in the payload is, the
    /// level that is sent is not.
    pub fn translate_command(&self, cmd: &serde_json::Value, global_fade: Number) -> (r: Vec<
        LipCommand,
    >)
        ensures
            r@ == device_commands(self.config, command_of(*cmd), global_fade),
            levels_settle_in_range(r@),
    {
        let request = read_command(cmd);
        proof {
            sent_levels_are_in_range(self.config, request, global_fade);
        }
        self.commands_for(&request, global_fade)
    }

    /// The button of this device that a command presses, if it presses one.
    pub fn button_to_press(&self, cmd: &Command) -> (r: Option<u32>)
        ensures
            r == pressed_button(self.config, *cmd),
    {
        if !matches!(self.config.kind, DeviceKind::Keypad | DeviceKind::Vcrx) {
            return None;
        }
        if let Some(led) = cmd.set_led {
            let named: u64 = led.button.unwrap_or(0);
            if named % 0x1_0000_0000 > 0 {
                return None;
            }
        }
        match cmd.press_button {
            Some(n) => {
                let button: u32 = (n % 0x1_0000_0000) as u32;
                if button > 0 {
                    Some(button)
                } else {
                    None
                }
            },
            None => None,
        }
    }

    /// What a command to this device sends to the repeater. A button press is not among it: that
    /// takes a pause.
    pub fn commands_for(&self, cmd: &Command, global_fade: Number) -> (r: Vec<LipCommand>)
        ensures
            r@ == device_commands(self.config, *cmd, global_fade),
    {
        let integration_id = self.config.integration_id;
        let mut commands: Vec<LipCommand> = Vec::new();
        match self.config.kind {
            DeviceKind::Dimmer => {
                let fade_secs = match cmd.fade_secs {
                    Some(secs) => secs,
                    None => self.fade_secs(global_fade),
                };
                let level = if let Some(pct) = cmd.brightness_pct {
                    Level::Exact(pct.clamp_percent())
                } else if let Some(brightness) = cmd.brightness {
                    if Number::hundred().less(brightness) {
                        Level::FromByte(brightness)
                    } else {
                        Level::Exact(brightness.clamp_percent())
                    }
                } else if let Some(on) = cmd.on {
                    if on {
                        Level::Exact(Number::hundred())
                    } else {
                        Level::Exact(Number::zero())
                    }
                } else {
                    return commands;
                };
                commands.push(LipCommand::SetLevel { integration_id, level, fade_secs });
            },
            DeviceKind::Switch => {
                let level = match cmd.on {
                    Some(true) => Level::Exact(Number::hundred()),
                    Some(false) => Level::Exact(Number::zero()),
                    None => return commands,
                };
                commands.push(
                    LipCommand::SetLevel { integration_id, level, fade_secs: Number::zero() },
                );
            },
            DeviceKind::Shade => {
                if let Some(position) = cmd.position {
                    let level = if self.config.invert_position {
                        Level::Inverted(position)
                    } else {
                        Level::Exact(position.clamp_percent())
                    };
                    commands.push(
                        LipCommand::SetLevel { integration_id, level, fade_secs: Number::zero() },
                    );
                } else if matches!(cmd.raise, Some(true)) {
                    commands.push(LipCommand::ShadeAction { integration_id, action: SHADE_RAISE });
                } else if matches!(cmd.lower, Some(true)) {
                    commands.push(LipCommand::ShadeAction { integration_id, action: SHADE_LOWER });
                } else if matches!(cmd.stop, Some(true)) {
                    commands.push(LipCommand::ShadeAction { integration_id, action: SHADE_STOP });
                }
            },
            DeviceKind::Keypad => {
                return translate_led(integration_id, cmd.set_led);
            },
            DeviceKind::Vcrx => {
                return translate_led(integration_id, cmd.set_led);
            },
            DeviceKind::Pico => {},
            DeviceKind::OccupancyGroup => {},
        }
        assert(commands@ =~= device_commands(self.config, *cmd, global_fade));
        commands
    }
}

/// A scene together with its HomeCore identity.
pub struct SceneEntry {
    pub config: SceneConfig,
    pub hc_id: String,
}

impl SceneEntry {
    /// A registry entry for a configured scene.
    pub fn new(config: SceneConfig) -> (r: Self)
        ensures
            r.config == config,
            r.hc_id@ == scene_hc_id(config.name@),
    {
        let hc_id = config.hc_id();
        SceneEntry { config, hc_id }
    }
}

/// A timeclock event together with its HomeCore identity.
pub struct TimeclockEntry {
    pub config: TimeclockConfig,
    pub hc_id: String,
}

impl TimeclockEntry {
    /// A registry entry for a configured timeclock event.
    pub fn new(config: TimeclockConfig) -> (r: Self)
        ensures
            r.config == config,
            r.hc_id@ == config.device_id@,
    {
        let hc_id = config.hc_id();
        TimeclockEntry { config, hc_id }
    }
}

/// Devices with different integration IDs have different HomeCore IDs.
pub proof fn device_ids_are_distinct(a: u32, b: u32)
    requires
        device_hc_id(a) == device_hc_id(b),
    ensures
        a == b,
{
    let prefix = "lutron_"@;
    assert(device_hc_id(a).skip(prefix.len() as int) =~= decimal_digits(a as nat));
    assert(device_hc_id(b).skip(prefix.len() as int) =~= decimal_digits(b as nat));
    decimal_digits_injective(a as nat, b as nat);
}

/// No device has the HomeCore ID of a scene.
pub proof fn devices_and_scenes_are_apart(integration_id: u32, scene_name: Seq<char>)
    ensures
        device_hc_id(integration_id) != scene_hc_id(scene_name),
{
    reveal_strlit("lutron_");
    reveal_strlit("lutron_scene_");
    decimal_digits_are_digits(integration_id as nat);
    assert(device_hc_id(integration_id)[7] == decimal_digits(integration_id as nat)[0]);
    assert(scene_hc_id(scene_name)[7] == 's');
}

/// A command to a device sends at most one command to the repeater, and to that device.
pub proof fn one_command_per_request(config: DeviceConfig, cmd: Command, global_fade: Number)
    ensures
        device_commands(config, cmd, global_fade).len() <= 1,
        forall|i: int|
            0 <= i < device_commands(config, cmd, global_fade).len()
                ==> match #[trigger] device_commands(config, cmd, global_fade)[i] {
                LipCommand::SetLevel { integration_id, .. } => integration_id
                    == config.integration_id,
                LipCommand::ShadeAction { integration_id, .. } => integration_id
                    == config.integration_id,
                LipCommand::DeviceLed { integration_id, .. } => integration_id
                    == config.integration_id,
                _ => false,
            },
{
}

/// Pico remotes and occupancy groups are read-only: no command to them sends anything, nor presses
/// a button.
pub proof fn read_only_devices_send_nothing(config: DeviceConfig, cmd: Command, global_fade: Number)
    requires
        config.kind == DeviceKind::Pico || config.kind == DeviceKind::OccupancyGroup,
    ensures
        device_commands(config, cmd, global_fade) == Seq::<LipCommand>::empty(),
        pressed_button(config, cmd) is None,
{
}

/// A command to a device either sends a command to the repeater or presses a button, never both.
pub proof fn presses_stand_alone(config: DeviceConfig, cmd: Command, global_fade: Number)
    requires
        pressed_button(config, cmd) is Some,
    ensures
        device_commands(config, cmd, global_fade) == Seq::<LipCommand>::empty(),
{
}

/// However far out of range the numbers of a command are, every level that is sent lies between
/// zero and one hundred. The numbers are finite, as those of every JSON payload are.
pub proof fn sent_levels_are_in_range(config: DeviceConfig, cmd: Command, global_fade: Number)
    requires
        cmd.has_finite_numbers(),
    ensures
        levels_settle_in_range(device_commands(config, cmd, global_fade)),
{
}

/// A dimmer publishes its level, rounded to tenths, as `brightness_pct`. That number sent back in
/// a command sets the dimmer to it, whatever else of the published state the command carries.
pub proof fn published_brightness_sets_its_level(
    config: DeviceConfig,
    level: Number,
    rounded: Number,
    cmd: Command,
    global_fade: Number,
)
    requires
        config.kind == DeviceKind::Dimmer,
        rounded.is_level(),
        cmd.brightness_pct == Some(rounded),
        cmd.fade_secs is None,
    ensures
        output_patch(config, level)->0.contains(
            AttributeView { name: "brightness_pct"@, value: PatchValueView::Tenths(level) },
        ),
        device_commands(config, cmd, global_fade) == seq![
            LipCommand::SetLevel {
                integration_id: config.integration_id,
                level: Level::Exact(rounded),
                fade_secs: effective_fade(config, global_fade),
            },
        ],
{
    assert(output_patch(config, level)->0[1] == (AttributeView {
        name: "brightness_pct"@,
        value: PatchValueView::Tenths(level),
    }));
}

/// Shade commands and shade states are inverted alike: a position is sent as it stands exactly if
/// the reported level is published as it stands, and then the position that was set is the one
/// that is published, but for rounding. Otherwise both are counted from the other end.
pub proof fn shades_are_inverted_both_ways(
    config: DeviceConfig,
    position: Number,
    reported: Number,
    cmd: Command,
    global_fade: Number,
)
    requires
        config.kind == DeviceKind::Shade,
        position.is_level(),
        cmd.position == Some(position),
    ensures
        device_commands(config, cmd, global_fade) == seq![
            LipCommand::SetLevel {
                integration_id: config.integration_id,
                level: if config.invert_position {
                    Level::Inverted(position)
                } else {
                    Level::Exact(position)
                },
                fade_secs: zero(),
            },
        ],
        output_patch(config, reported) == Some(
            seq![
                AttributeView {
                    name: "position"@,
                    value: if config.invert_position {
                        PatchValueView::InvertedTenths(reported)
                    } else {
                        PatchValueView::Tenths(reported)
                    },
                },
            ],
        ),
{
}

/// An LED is set to one of the four LED states.
pub proof fn sent_led_states_exist(config: DeviceConfig, cmd: Command, global_fade: Number)
    ensures
        forall|i: int|
            0 <= i < device_commands(config, cmd, global_fade).len()
                ==> match #[trigger] device_commands(config, cmd, global_fade)[i] {
                LipCommand::DeviceLed { state, .. } => state <= LED_STATE_MAX,
                _ => true,
            },
{
}

/// The HomeCore ID of a device is the prefix of all devices and then its integration ID in decimal.
pub proof fn device_ids_end_in_integration_ids(integration_id: u32)
    ensures
        device_hc_id(integration_id) == "lutron_"@ + decimal_digits(integration_id as nat),
{
}

/// Each kind of device has the HomeCore type of its own: dimmers are lights, switches switches,
/// shades covers, occupancy groups occupancy sensors, and whatever has buttons is a button.
pub proof fn kinds_have_their_types(kind: DeviceKind)
    ensures
        kind is Dimmer ==> device_type_of(kind) == "light"@,
        kind is Switch ==> device_type_of(kind) == "switch"@,
        kind is Shade ==> device_type_of(kind) == "cover"@,
        kind is OccupancyGroup ==> device_type_of(kind) == "occupancy_sensor"@,
        kind is Keypad || kind is Pico || kind is Vcrx ==> device_type_of(kind) == "button"@,
{
}

/// Dimmers, switches and shades have levels; keypads, Pico remotes and receivers have buttons;
/// those of keypads and receivers can be pressed. Only the contact closure inputs of a receiver are
/// components of such a device that are no buttons.
pub proof fn kinds_have_their_parts(config: DeviceConfig, component: u32)
    ensures
        output_kind(config.kind) <==> config.kind is Dimmer || config.kind is Switch
            || config.kind is Shade,
        button_kind(config.kind) <==> config.kind is Keypad || config.kind is Pico
            || config.kind is Vcrx,
        pressable_kind(config.kind) <==> config.kind is Keypad || config.kind is Vcrx,
        button_component_of(config, component) <==> config.kind is Keypad || config.kind is Pico
            || (config.kind is Vcrx && !config.ccis@.contains(component)),
{
}

/// A fade time of the device's own counts; only without one does the global one.
pub proof fn own_fade_times_come_first(config: DeviceConfig, global: Number)
    ensures
        config.fade_secs is Some ==> effective_fade(config, global) == config.fade_secs->0,
        config.fade_secs is None ==> effective_fade(config, global) == global,
{
}

/// A dimmer at any level, zero included, is on exactly if the level is a number greater than zero,
/// and shows the level in percent and out of 255.
pub proof fn dimmers_show_their_level(config: DeviceConfig, level: Number)
    requires
        config.kind is Dimmer,
    ensures
        output_patch(config, level) == Some(
            seq![
                AttributeView {
                    name: "on"@,
                    value: PatchValueView::Flag(0 < level.bits <= 0x7FF0_0000_0000_0000),
                },
                AttributeView { name: "brightness_pct"@, value: PatchValueView::Tenths(level) },
                AttributeView { name: "brightness"@, value: PatchValueView::Byte(level) },
            ],
        ),
{
}

/// A switch at any level is on exactly if the level is a number greater than zero, and shows
/// nothing else.
pub proof fn switches_show_whether_they_are_on(config: DeviceConfig, level: Number)
    requires
        config.kind is Switch,
    ensures
        output_patch(config, level) == Some(
            seq![
                AttributeView {
                    name: "on"@,
                    value: PatchValueView::Flag(0 < level.bits <= 0x7FF0_0000_0000_0000),
                },
            ],
        ),
{
}

/// A shade at any level shows its position, counted from the end that is configured, and devices
/// without a level show none.
pub proof fn shades_show_their_position(config: DeviceConfig, level: Number)
    ensures
        config.kind is Shade && !config.invert_position ==> output_patch(config, level) == Some(
            seq![AttributeView { name: "position"@, value: PatchValueView::Tenths(level) }],
        ),
        config.kind is Shade && config.invert_position ==> output_patch(config, level) == Some(
            seq![AttributeView { name: "position"@, value: PatchValueView::InvertedTenths(level) }],
        ),
        !(config.kind is Dimmer || config.kind is Switch || config.kind is Shade) ==> output_patch(
            config,
            level,
        ) is None,
{
}

/// An occupancy group shows its state under both of its attributes.
pub proof fn occupancy_is_shown_twice(occupied: bool)
    ensures
        occupancy_patch(occupied) == seq![
            AttributeView { name: "occupied"@, value: PatchValueView::Flag(occupied) },
            AttributeView { name: "occupancy"@, value: PatchValueView::Flag(occupied) },
        ],
{
}

/// A percentage sets a dimmer to it, clamped, whatever else the command holds.
pub proof fn percentages_come_first(config: DeviceConfig, cmd: Command, global_fade: Number)
    requires
        config.kind is Dimmer,
        cmd.brightness_pct is Some,
    ensures
        device_commands(config, cmd, global_fade).len() == 1,
        device_commands(config, cmd, global_fade)[0] is SetLevel,
        device_commands(config, cmd, global_fade)[0]->SetLevel_integration_id
            == config.integration_id,
        device_commands(config, cmd, global_fade)[0]->level == Level::Exact(
            cmd.brightness_pct->0.clamped(),
        ),
{
}

/// A brightness without a percentage sets a dimmer to it: out of 255 if it is over one hundred, else
/// in percent, clamped. Whether the command also says to switch on or off makes no difference.
pub proof fn brightness_comes_before_on_and_off(
    config: DeviceConfig,
    cmd: Command,
    global_fade: Number,
    on: Option<bool>,
)
    requires
        config.kind is Dimmer,
        cmd.brightness_pct is None,
        cmd.brightness is Some,
    ensures
        device_commands(config, cmd, global_fade).len() == 1,
        device_commands(config, cmd, global_fade)[0] is SetLevel,
        device_commands(config, cmd, global_fade)[0]->SetLevel_integration_id
            == config.integration_id,
        (Number { bits: 0x4059_0000_0000_0000 }).less_spec(cmd.brightness->0) ==> device_commands(
            config,
            cmd,
            global_fade,
        )[0]->level == Level::FromByte(cmd.brightness->0),
        !(Number { bits: 0x4059_0000_0000_0000 }).less_spec(cmd.brightness->0) ==> device_commands(
            config,
            cmd,
            global_fade,
        )[0]->level == Level::Exact(cmd.brightness->0.clamped()),
        device_commands(config, (Command { on, ..cmd }), global_fade) == device_commands(
            config,
            cmd,
            global_fade,
        ),
{
}

/// Without a brightness, a dimmer is fully on or off as the command says, and left alone if it does
/// not say.
pub proof fn dimmers_switch_on_and_off(config: DeviceConfig, cmd: Command, global_fade: Number)
    requires
        config.kind is Dimmer,
        cmd.brightness_pct is None,
        cmd.brightness is None,
    ensures
        cmd.on is None ==> device_commands(config, cmd, global_fade).len() == 0,
        cmd.on is Some ==> device_commands(config, cmd, global_fade).len() == 1
            && device_commands(config, cmd, global_fade)[0] is SetLevel && device_commands(
            config,
            cmd,
            global_fade,
        )[0]->SetLevel_integration_id == config.integration_id,
        cmd.on == Some(true) ==> device_commands(config, cmd, global_fade)[0]->level
            == Level::Exact(Number { bits: 0x4059_0000_0000_0000 }),
        cmd.on == Some(false) ==> device_commands(config, cmd, global_fade)[0]->level
            == Level::Exact(Number { bits: 0 }),
{
}

/// A dimmer fades over the time in the command, without one over that of the device, and without
/// that over the global one.
pub proof fn dimmers_fade_as_asked(config: DeviceConfig, cmd: Command, global_fade: Number)
    requires
        config.kind is Dimmer,
        cmd.brightness_pct is Some || cmd.brightness is Some || cmd.on is Some,
    ensures
        cmd.fade_secs is Some ==> device_commands(config, cmd, global_fade)[0]->fade_secs
            == cmd.fade_secs->0,
        cmd.fade_secs is None && config.fade_secs is Some ==> device_commands(
            config,
            cmd,
            global_fade,
        )[0]->fade_secs == config.fade_secs->0,
        cmd.fade_secs is None && config.fade_secs is None ==> device_commands(
            config,
            cmd,
            global_fade,
        )[0]->fade_secs == global_fade,
{
}

/// A switch is fully on or off at once as the command says, and left alone if it does not say.
pub proof fn switches_switch_on_and_off(config: DeviceConfig, cmd: Command, global_fade: Number)
    requires
        config.kind is Switch,
    ensures
        cmd.on is None ==> device_commands(config, cmd, global_fade).len() == 0,
        cmd.on is Some ==> device_commands(config, cmd, global_fade) == seq![
            LipCommand::SetLevel {
                integration_id: config.integration_id,
                level: Level::Exact(
                    Number {
                        bits: if cmd.on->0 {
                            0x4059_0000_0000_0000
                        } else {
                            0
                        },
                    },
                ),
                fade_secs: Number { bits: 0 },
            },
        ],
{
}

/// A position sets a shade to it at once, counted from the end that is configured, whatever else
/// the command holds.
pub proof fn positions_come_first(config: DeviceConfig, cmd: Command, global_fade: Number)
    requires
        config.kind is Shade,
        cmd.position is Some,
    ensures
        device_commands(config, cmd, global_fade) == seq![
            LipCommand::SetLevel {
                integration_id: config.integration_id,
                level: if config.invert_position {
                    Level::Inverted(cmd.position->0)
                } else {
                    Level::Exact(cmd.position->0.clamped())
                },
                fade_secs: Number { bits: 0 },
            },
        ],
{
}

/// Without a position, a shade is raised, lowered or stopped: the first of these that the command
/// asks for, and none if it asks for none.
pub proof fn shades_move_as_asked(config: DeviceConfig, cmd: Command, global_fade: Number)
    requires
        config.kind is Shade,
        cmd.position is None,
    ensures
        cmd.raise == Some(true) ==> device_commands(config, cmd, global_fade) == seq![
            LipCommand::ShadeAction { integration_id: config.integration_id, action: 2 },
        ],
        cmd.raise != Some(true) && cmd.lower == Some(true) ==> device_commands(
            config,
            cmd,
            global_fade,
        ) == seq![LipCommand::ShadeAction { integration_id: config.integration_id, action: 3 }],
        cmd.raise != Some(true) && cmd.lower != Some(true) && cmd.stop == Some(true)
            ==> device_commands(config, cmd, global_fade) == seq![
            LipCommand::ShadeAction { integration_id: config.integration_id, action: 4 },
        ],
        cmd.raise != Some(true) && cmd.lower != Some(true) && cmd.stop != Some(true)
            ==> device_commands(config, cmd, global_fade).len() == 0,
{
}

/// An LED request to a keypad or a receiver that names a button sets the LED eighty past it, to the
/// state that is asked for, the highest for any higher one and off if none is. Only the lower 32
/// bits of the button's number count.
pub proof fn leds_are_set_as_asked(
    config: DeviceConfig,
    cmd: Command,
    global_fade: Number,
    button: u64,
)
    requires
        config.kind is Keypad || config.kind is Vcrx,
        cmd.set_led is Some,
        cmd.set_led->0.button == Some(button),
        0 < button % 4294967296 <= 4294967215,
    ensures
        ({
            let asked: u64 = if cmd.set_led->0.state is Some {
                cmd.set_led->0.state->0
            } else {
                0
            };
            device_commands(config, cmd, global_fade) == seq![
                LipCommand::DeviceLed {
                    integration_id: config.integration_id,
                    component: (button % 4294967296 + 80) as u32,
                    state: if asked < 3 {
                        asked as u8
                    } else {
                        3u8
                    },
                },
            ]
        }),
{
}

/// Without an LED request that names a button with an LED, nothing is sent to a keypad or a
/// receiver.
pub proof fn other_led_requests_send_nothing(
    config: DeviceConfig,
    cmd: Command,
    global_fade: Number,
)
    requires
        config.kind is Keypad || config.kind is Vcrx,
        cmd.set_led is None || cmd.set_led->0.button is None || cmd.set_led->0.button->0
            % 4294967296 == 0 || cmd.set_led->0.button->0 % 4294967296 > 4294967215,
    ensures
        device_commands(config, cmd, global_fade).len() == 0,
{
}

/// A command presses a button exactly if it asks a keypad or a receiver to press one and does not
/// name a button whose LED is to be set. Only the lower 32 bits of the button's number count.
pub proof fn buttons_are_pressed_as_asked(config: DeviceConfig, cmd: Command, button: u32)
    ensures
        pressed_button(config, cmd) == Some(button) <==> {
            &&& config.kind is Keypad || config.kind is Vcrx
            &&& cmd.press_button is Some
            &&& cmd.press_button->0 % 4294967296 == button
            &&& button > 0
            &&& cmd.set_led is None || cmd.set_led->0.button is None || cmd.set_led->0.button->0
                % 4294967296 == 0
        },
{
}

} // verus!
