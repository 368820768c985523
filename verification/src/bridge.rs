//! The bridge: what follows from each event on either side.

use crate::action::{actions_view, send_all, sends, Action, ActionView};
use crate::command::{command_of, read_command, Command};
use crate::config::{DeviceConfig, DeviceKind, LutronConfig};
use crate::devices::{
    button_component_of, device_commands, occupancy_patch, output_kind, output_patch,
    pressed_button, sent_levels_are_in_range, DeviceEntry, SceneEntry,
};
use crate::number::Number;
use crate::patch::{patch_view, Attribute, AttributeView, PatchValue, PatchValueView};
use crate::protocol::{
    led_component, led_component_for_button, DeviceAction, LipCommand, LipMessage, OccupancyState,
    OutputAction, ACTION_PRESS, ACTION_RELEASE, LED_OFFSET, SCENE_LED_OFFSET,
};
use crate::text::{decimal, decimal_digits, prefixed};
use std::collections::{HashMap, HashSet};
use vstd::hash_map::StringHashMap;
use vstd::prelude::*;

verus! {

broadcast use vstd::std_specs::hash::group_hash_axioms;

/// Pause between the press and the release of a button that a command presses.
pub const SCENE_PAUSE_MS: u64 = 100;

/// Longest wait before a reconnection, but for the first.
pub const MAX_BACKOFF_SECS: u64 = 60;

/// Time between keepalives.
pub const KEEPALIVE_SECS: u64 = 60;

/// A component of a device: its integration ID and its component number.
pub type Component = (u32, u32);

/// A component as one number.
pub open spec fn packed(c: Component) -> u64 {
    (c.0 * 0x1_0000_0000 + c.1) as u64
}

fn pack(integration_id: u32, component: u32) -> (r: u64)
    ensures
        r == packed((integration_id, component)),
{
    (integration_id as u64) * 0x1_0000_0000 + component as u64
}

/// The components that a set of packed components holds.
pub open spec fn unpacked_set(s: Set<u64>) -> Set<Component> {
    Set::new(|c: Component| s.contains(packed(c)))
}

/// A map by packed components, by components.
pub open spec fn unpacked_map(m: Map<u64, u8>) -> Map<Component, u8> {
    Map::new(|c: Component| m.contains_key(packed(c)), |c: Component| m[packed(c)])
}

proof fn unpacked_after(s: Set<u64>, m: Map<u64, u8>, c: Component, state: u8)
    ensures
        unpacked_set(s.insert(packed(c))) == unpacked_set(s).insert(c),
        unpacked_set(s.remove(packed(c))) == unpacked_set(s).remove(c),
        unpacked_set(s).contains(c) == s.contains(packed(c)),
        unpacked_map(m.insert(packed(c), state)) == unpacked_map(m).insert(c, state),
{
    assert(unpacked_set(s.insert(packed(c))) =~= unpacked_set(s).insert(c));
    assert(unpacked_set(s.remove(packed(c))) =~= unpacked_set(s).remove(c));
    assert(unpacked_map(m.insert(packed(c), state)) =~= unpacked_map(m).insert(c, state));
}

/// The state of the bridge.
#[verifier::ext_equal]
pub struct BridgeView {
    /// Devices by integration ID.
    pub devices: Map<u32, DeviceEntry>,
    /// Integration IDs by HomeCore ID.
    pub routes: Map<Seq<char>, u32>,
    pub scenes: Seq<SceneEntry>,
    /// Positions in `scenes` by HomeCore ID.
    pub scene_routes: Map<Seq<char>, usize>,
    /// Buttons whose hold timer is running.
    pub pending: Set<Component>,
    /// Last reported state of each LED.
    pub leds: Map<Component, u8>,
    pub lutron_cfg: LutronConfig,
    /// How long to wait before the next reconnection.
    pub backoff_secs: u64,
}

/// Devices by integration ID; of several with one ID the last counts.
pub open spec fn device_map(devices: Seq<DeviceEntry>) -> Map<u32, DeviceEntry>
    decreases devices.len(),
{
    if devices.len() == 0 {
        Map::empty()
    } else {
        device_map(devices.drop_last()).insert(
            devices.last().config.integration_id,
            devices.last(),
        )
    }
}

/// Integration IDs by HomeCore ID; of several devices with one HomeCore ID the last counts.
pub open spec fn route_map(devices: Seq<DeviceEntry>) -> Map<Seq<char>, u32>
    decreases devices.len(),
{
    if devices.len() == 0 {
        Map::empty()
    } else {
        route_map(devices.drop_last()).insert(
            devices.last().hc_id@,
            devices.last().config.integration_id,
        )
    }
}

/// Scene positions by HomeCore ID; of several scenes with one HomeCore ID the last counts.
pub open spec fn scene_route_map(scenes: Seq<SceneEntry>) -> Map<Seq<char>, usize>
    decreases scenes.len(),
{
    if scenes.len() == 0 {
        Map::empty()
    } else {
        scene_route_map(scenes.drop_last()).insert(
            scenes.last().hc_id@,
            (scenes.len() - 1) as usize,
        )
    }
}

impl BridgeView {
    /// What holds of every state: devices stand under their own integration IDs, every route
    /// leads to a device or a scene, and hold timers run for buttons of known devices only.
    pub open spec fn wf(self) -> bool {
        &&& forall|id: u32| #[trigger]
            self.devices.contains_key(id) ==> self.devices[id].config.integration_id == id
        &&& forall|k: Seq<char>| #[trigger]
            self.routes.contains_key(k) ==> self.devices.contains_key(self.routes[k])
        &&& forall|k: Seq<char>| #[trigger]
            self.scene_routes.contains_key(k) ==> self.scene_routes[k] < self.scenes.len()
                && self.scenes[self.scene_routes[k] as int].hc_id@ == k
        &&& forall|c: Component| #[trigger]
            self.pending.contains(c) ==> self.button_of_known_device(c)
    }

    /// Whether a component is a button of a known device.
    pub open spec fn button_of_known_device(self, c: Component) -> bool {
        self.devices.contains_key(c.0) && button_component_of(self.devices[c.0].config, c.1)
    }

    /// The fade time for devices without one of their own.
    pub open spec fn global_fade(self) -> Number {
        self.lutron_cfg.default_fade_secs
    }

    /// How long a button is held before a hold event is published.
    pub open spec fn hold_threshold_ms(self) -> u64 {
        self.lutron_cfg.hold_threshold_ms
    }
}

/// The attribute of a button.
pub open spec fn button_attribute(component: u32) -> Seq<char> {
    "button_"@ + decimal_digits(component as nat)
}

/// Publishing an event of a button.
pub open spec fn button_event(hc_id: Seq<char>, component: u32, event: Seq<char>) -> ActionView {
    ActionView::PublishPartial {
        hc_id,
        patch: seq![
            AttributeView { name: button_attribute(component), value: PatchValueView::Text(event) },
        ],
    }
}

/// Stopping the hold timer of a button, if it is running.
pub open spec fn cancel_timer(b: BridgeView, c: Component) -> Seq<ActionView> {
    if b.pending.contains(c) {
        seq![ActionView::CancelHoldTimer { keypad_id: c.0, button: c.1 }]
    } else {
        seq![]
    }
}

/// The attribute of an LED: by its button, as LED requests name it, where the component is the
/// LED of one, else by its component.
pub open spec fn led_attribute(component: u32) -> Seq<char> {
    if component > LED_OFFSET {
        "led_"@ + decimal_digits((component - LED_OFFSET) as nat)
    } else {
        "led_component_"@ + decimal_digits(component as nat)
    }
}

/// Publishing the state of an LED.
pub open spec fn led_event(hc_id: Seq<char>, attribute: Seq<char>, state: u8) -> ActionView {
    ActionView::PublishPartial {
        hc_id,
        patch: seq![
            AttributeView { name: attribute, value: PatchValueView::Integer(state as u64) },
        ],
    }
}

/// Whether a component is the LED of a scene: a hundred past its phantom button.
pub open spec fn is_scene_led(scene: SceneEntry, c: Component) -> bool {
    scene.config.main_repeater_id == c.0 && scene.config.button_component + SCENE_LED_OFFSET == c.1
}

/// What an LED report leads to for scenes: it is published under each scene whose LED it is.
pub open spec fn scene_led_actions(scenes: Seq<SceneEntry>, c: Component, state: u8) -> Seq<
    ActionView,
> {
    scenes.filter(|scene: SceneEntry| is_scene_led(scene, c)).map_values(
        |scene: SceneEntry| led_event(scene.hc_id@, "led"@, state),
    )
}

/// What an LED report leads to: it is published under the device if that is a keypad, and under
/// the scenes whose LED it is.
pub open spec fn led_actions(b: BridgeView, c: Component, state: u8) -> Seq<ActionView> {
    let of_device = if b.devices.contains_key(c.0) && b.devices[c.0].config.kind
        == DeviceKind::Keypad {
        seq![led_event(b.devices[c.0].hc_id@, led_attribute(c.1), state)]
    } else {
        seq![]
    };
    of_device + scene_led_actions(b.scenes, c, state)
}

/// What a report of a device's component leads to.
pub open spec fn device_event_actions(b: BridgeView, c: Component, action: DeviceAction) -> Seq<
    ActionView,
> {
    let hc_id = b.devices[c.0].hc_id@;
    match action {
        DeviceAction::Led(state) => led_actions(b, c, state),
        _ if !b.button_of_known_device(c) => seq![],
        DeviceAction::Press => seq![
            button_event(hc_id, c.1, "press"@),
            ActionView::StartHoldTimer {
                keypad_id: c.0,
                button: c.1,
                after_ms: b.hold_threshold_ms(),
            },
        ],
        DeviceAction::Release => cancel_timer(b, c).push(button_event(hc_id, c.1, "release"@)),
        DeviceAction::DoubleClick => cancel_timer(b, c).push(
            button_event(hc_id, c.1, "double_click"@),
        ),
    }
}

/// The state after a report of a device's component: LED states are remembered, and a button's
/// hold timer runs from its press to its release or double click.
pub open spec fn after_device_event(
    b: BridgeView,
    c: Component,
    action: DeviceAction,
) -> BridgeView {
    match action {
        DeviceAction::Led(state) => BridgeView { leds: b.leds.insert(c, state), ..b },
        DeviceAction::Press => if b.button_of_known_device(c) {
            BridgeView { pending: b.pending.insert(c), ..b }
        } else {
            b
        },
        _ => if b.button_of_known_device(c) {
            BridgeView { pending: b.pending.remove(c), ..b }
        } else {
            b
        },
    }
}

/// What a message from the repeater leads to.
pub open spec fn message_actions(b: BridgeView, msg: LipMessage) -> Seq<ActionView> {
    match msg {
        LipMessage::Output { integration_id, action, value } => if action == OutputAction::ZoneLevel
            && b.devices.contains_key(integration_id) {
            let dev = b.devices[integration_id];
            match output_patch(dev.config, value) {
                Some(patch) => seq![ActionView::PublishState { hc_id: dev.hc_id@, patch }],
                None => seq![],
            }
        } else {
            seq![]
        },
        LipMessage::Group { integration_id, state } => if b.devices.contains_key(integration_id) {
            seq![
                ActionView::PublishState {
                    hc_id: b.devices[integration_id].hc_id@,
                    patch: occupancy_patch(state == OccupancyState::Occupied),
                },
            ]
        } else {
            seq![]
        },
        LipMessage::Device { integration_id, component, action } => device_event_actions(
            b,
            (integration_id, component),
            action,
        ),
        _ => seq![],
    }
}

/// The state after a message from the repeater.
pub open spec fn after_message(b: BridgeView, msg: LipMessage) -> BridgeView {
    match msg {
        LipMessage::Device { integration_id, component, action } => after_device_event(
            b,
            (integration_id, component),
            action,
        ),
        _ => b,
    }
}

/// What a hold timer that ran out leads to.
pub open spec fn hold_actions(b: BridgeView, c: Component) -> Seq<ActionView> {
    if b.devices.contains_key(c.0) {
        cancel_timer(b, c).push(button_event(b.devices[c.0].hc_id@, c.1, "hold"@))
    } else {
        cancel_timer(b, c)
    }
}

/// The state after a hold timer ran out.
pub open spec fn after_hold(b: BridgeView, c: Component) -> BridgeView {
    BridgeView { pending: b.pending.remove(c), ..b }
}

/// Using a button: it is pressed and, after a pause, released.
pub open spec fn button_use(integration_id: u32, component: u32) -> Seq<ActionView> {
    seq![
        ActionView::Send(
            LipCommand::DeviceAction { integration_id, component, action: ACTION_PRESS },
        ),
        ActionView::Pause { millis: SCENE_PAUSE_MS },
        ActionView::Send(
            LipCommand::DeviceAction { integration_id, component, action: ACTION_RELEASE },
        ),
    ]
}

/// Activating a scene: its phantom button is used.
pub open spec fn scene_activation(scene: SceneEntry) -> Seq<ActionView> {
    button_use(scene.config.main_repeater_id, scene.config.button_component)
}

/// What a command to a device leads to: a button is used, or commands are sent.
pub open spec fn device_actions(config: DeviceConfig, cmd: Command, global_fade: Number) -> Seq<
    ActionView,
> {
    match pressed_button(config, cmd) {
        Some(button) => button_use(config.integration_id, button),
        None => sends(device_commands(config, cmd, global_fade)),
    }
}

/// What a command from HomeCore leads to.
pub open spec fn command_actions(b: BridgeView, hc_id: Seq<char>, cmd: Command) -> Seq<ActionView> {
    if b.scene_routes.contains_key(hc_id) {
        if cmd.activate == Some(true) {
            scene_activation(b.scenes[b.scene_routes[hc_id] as int])
        } else {
            seq![]
        }
    } else if b.routes.contains_key(hc_id) && b.devices.contains_key(b.routes[hc_id]) {
        device_actions(b.devices[b.routes[hc_id]].config, cmd, b.global_fade())
    } else {
        seq![]
    }
}

/// Asking for the LED state of each button.
pub open spec fn led_queries(integration_id: u32, buttons: Seq<u32>) -> Seq<LipCommand>
    decreases buttons.len(),
{
    if buttons.len() == 0 {
        seq![]
    } else {
        let before = led_queries(integration_id, buttons.drop_last());
        match led_component(buttons.last()) {
            Some(component) => before.push(LipCommand::QueryLed { integration_id, component }),
            None => before,
        }
    }
}

/// What is asked about a device when a connection is made.
pub open spec fn device_queries(config: DeviceConfig) -> Seq<LipCommand> {
    if output_kind(config.kind) {
        seq![LipCommand::QueryOutput { integration_id: config.integration_id }]
    } else if config.kind == DeviceKind::OccupancyGroup {
        seq![LipCommand::QueryGroup { integration_id: config.integration_id }]
    } else if config.kind == DeviceKind::Keypad {
        led_queries(config.integration_id, config.buttons@)
    } else {
        seq![]
    }
}

/// What is asked about several devices, one after the other.
pub open spec fn queries_in_order(devices: Map<u32, DeviceEntry>, order: Seq<u32>) -> Seq<
    LipCommand,
>
    decreases order.len(),
{
    if order.len() == 0 {
        seq![]
    } else {
        queries_in_order(devices, order.drop_last()) + device_queries(devices[order.last()].config)
    }
}

/// Whether a sequence holds every device exactly once.
pub open spec fn visits_all(devices: Map<u32, DeviceEntry>, order: Seq<u32>) -> bool {
    &&& order.no_duplicates()
    &&& forall|id: u32| order.contains(id) <==> #[trigger] devices.contains_key(id)
}

/// Whether these queries ask about every device, in whatever order.
pub open spec fn queries_all(devices: Map<u32, DeviceEntry>, queries: Seq<LipCommand>) -> bool {
    exists|order: Seq<u32>|
        visits_all(devices, order) && queries == #[trigger] queries_in_order(devices, order)
}

/// Last reported state of the LED at a component.
pub open spec fn led_at(b: BridgeView, c: Component) -> Option<u8> {
    if b.leds.contains_key(c) {
        Some(b.leds[c])
    } else {
        None
    }
}

/// Last reported LED state of a scene: the LED stands a hundred past the phantom button.
pub open spec fn scene_led_state(b: BridgeView, hc_id: Seq<char>) -> Option<u8> {
    if b.scene_routes.contains_key(hc_id) {
        let config = b.scenes[b.scene_routes[hc_id] as int].config;
        if config.button_component + SCENE_LED_OFFSET <= u32::MAX {
            led_at(
                b,
                (config.main_repeater_id, (config.button_component + SCENE_LED_OFFSET) as u32),
            )
        } else {
            None
        }
    } else {
        None
    }
}

/// Last reported LED state of a device's button.
pub open spec fn button_led_state(b: BridgeView, hc_id: Seq<char>, button: u32) -> Option<u8> {
    match led_component(button) {
        Some(component) => if b.routes.contains_key(hc_id) {
            led_at(b, (b.routes[hc_id], component))
        } else {
            None
        },
        None => None,
    }
}

/// The wait after the next one: twice as long, up to the longest.
pub open spec fn next_backoff(secs: u64) -> u64 {
    if 2 * secs < MAX_BACKOFF_SECS {
        (2 * secs) as u64
    } else {
        MAX_BACKOFF_SECS
    }
}

/// What happens to the bridge.
pub enum Event {
    /// A connection to the repeater was made.
    Connected,
    /// The repeater sent a message.
    Message(LipMessage),
    /// HomeCore sent a command.
    Command { hc_id: String, payload: serde_json::Value },
    /// HomeCore will send no more commands.
    HomecoreClosed,
    /// The hold timer of a button ran out.
    HoldFired { keypad_id: u32, button: u32 },
    /// It is time for a keepalive.
    KeepaliveDue,
    /// Connecting, reading or the keepalive failed.
    ConnectionLost,
}

/// How to go on.
#[derive(Clone, Copy, Debug, PartialEq, Eq, Structural)]
pub enum Next {
    /// Wait for the next event.
    Continue,
    /// Stop for good.
    Shutdown,
    /// Connect anew after a wait.
    Reconnect { delay_secs: u64 },
}

/// What follows from an event.
pub struct Step {
    /// What to do, in order.
    pub actions: Vec<Action>,
    /// How to go on afterwards.
    pub next: Next,
}

/// Whether these actions are what an event leads to.
pub open spec fn event_leads_to(b: BridgeView, event: Event, actions: Seq<ActionView>) -> bool {
    match event {
        Event::Connected => exists|queries: Seq<LipCommand>| #[trigger]
            queries_all(b.devices, queries) && actions == sends(queries),
        Event::Message(msg) => actions == message_actions(b, msg),
        Event::Command { hc_id, payload } => actions == command_actions(
            b,
            hc_id@,
            command_of(payload),
        ),
        Event::HomecoreClosed => actions == Seq::<ActionView>::empty(),
        Event::HoldFired { keypad_id, button } => actions == hold_actions(b, (keypad_id, button)),
        Event::KeepaliveDue => actions == seq![ActionView::SendKeepalive],
        Event::ConnectionLost => actions == seq![ActionView::CancelAllHoldTimers],
    }
}

/// Whether every level that these actions set lies between zero and one hundred once it is
/// settled.
pub open spec fn sent_levels_settle_in_range(actions: Seq<ActionView>) -> bool {
    forall|i: int|
        0 <= i < actions.len() ==> match #[trigger] actions[i] {
            ActionView::Send(LipCommand::SetLevel { level, .. }) => level.settles_in_range(),
            _ => true,
        }
}

/// The state after an event. A connection that was made brings the wait before reconnections back
/// to the configured one; a lost one makes it longer.
pub open spec fn after_event(b: BridgeView, event: Event) -> BridgeView {
    match event {
        Event::Connected => BridgeView { backoff_secs: b.lutron_cfg.reconnect_delay_secs, ..b },
        Event::Message(msg) => after_message(b, msg),
        Event::HoldFired { keypad_id, button } => after_hold(b, (keypad_id, button)),
        Event::ConnectionLost => BridgeView {
            pending: Set::empty(),
            backoff_secs: next_backoff(b.backoff_secs),
            ..b
        },
        _ => b,
    }
}

/// How to go on after an event.
pub open spec fn event_next(b: BridgeView, event: Event) -> Next {
    match event {
        Event::HomecoreClosed => Next::Shutdown,
        Event::ConnectionLost => Next::Reconnect { delay_secs: b.backoff_secs },
        _ => Next::Continue,
    }
}

/// The bridge between the repeater and HomeCore.
pub struct Bridge {
    devices: HashMap<u32, DeviceEntry>,
    hc_to_id: StringHashMap<u32>,
    scenes: Vec<SceneEntry>,
    hc_to_scene: StringHashMap<usize>,
    hold_timers: HashSet<u64>,
    leds: HashMap<u64, u8>,
    lutron_cfg: LutronConfig,
    backoff_secs: u64,
}

impl View for Bridge {
    type V = BridgeView;

    closed spec fn view(&self) -> BridgeView {
        BridgeView {
            devices: self.devices@,
            routes: self.hc_to_id@,
            scenes: self.scenes@,
            scene_routes: self.hc_to_scene@,
            pending: unpacked_set(self.hold_timers@),
            leds: unpacked_map(self.leds@),
            lutron_cfg: self.lutron_cfg,
            backoff_secs: self.backoff_secs,
        }
    }
}

/// The state of a new bridge.
pub open spec fn initial_state(
    devices: Seq<DeviceEntry>,
    scenes: Seq<SceneEntry>,
    lutron_cfg: LutronConfig,
) -> BridgeView {
    BridgeView {
        devices: device_map(devices),
        routes: route_map(devices),
        scenes,
        scene_routes: scene_route_map(scenes),
        pending: Set::empty(),
        leds: Map::empty(),
        lutron_cfg,
        backoff_secs: lutron_cfg.reconnect_delay_secs,
    }
}

/// A new bridge is in a good state.
pub proof fn initial_state_is_wf(
    devices: Seq<DeviceEntry>,
    scenes: Seq<SceneEntry>,
    lutron_cfg: LutronConfig,
)
    requires
        scenes.len() <= usize::MAX,
    ensures
        initial_state(devices, scenes, lutron_cfg).wf(),
    decreases devices.len() + scenes.len(),
{
    if devices.len() > 0 {
        initial_state_is_wf(devices.drop_last(), scenes, lutron_cfg);
        let before = initial_state(devices.drop_last(), scenes, lutron_cfg);
        let after = initial_state(devices, scenes, lutron_cfg);
        assert forall|k: Seq<char>| #[trigger] after.routes.contains_key(k) implies
            after.devices.contains_key(after.routes[k]) by {
            if k != devices.last().hc_id@ {
                assert(before.routes.contains_key(k));
            }
        }
        assert forall|id: u32| #[trigger] after.devices.contains_key(id) implies
            after.devices[id].config.integration_id == id by {
            if id != devices.last().config.integration_id {
                assert(before.devices.contains_key(id));
            }
        }
        assert(after.scene_routes == before.scene_routes);
    } else if scenes.len() > 0 {
        initial_state_is_wf(devices, scenes.drop_last(), lutron_cfg);
        let before = initial_state(devices, scenes.drop_last(), lutron_cfg);
        let after = initial_state(devices, scenes, lutron_cfg);
        assert forall|k: Seq<char>| #[trigger] after.scene_routes.contains_key(k) implies
            after.scene_routes[k] < scenes.len() && scenes[after.scene_routes[k] as int].hc_id@ == k
        by {
            if k != scenes.last().hc_id@ {
                assert(before.scene_routes.contains_key(k));
            }
        }
    }
}

/// No event leads out of the good states.
pub proof fn events_keep_wf(b: BridgeView, event: Event)
    requires
        b.wf(),
    ensures
        after_event(b, event).wf(),
{
}

/// However far out of range the numbers of a command are, every level that it sets lies between
/// zero and one hundred.
pub proof fn commands_set_levels_in_range(b: BridgeView, hc_id: Seq<char>, cmd: Command)
    requires
        cmd.has_finite_numbers(),
    ensures
        sent_levels_settle_in_range(command_actions(b, hc_id, cmd)),
{
    if !b.scene_routes.contains_key(hc_id) && b.routes.contains_key(hc_id)
        && b.devices.contains_key(b.routes[hc_id]) {
        let config = b.devices[b.routes[hc_id]].config;
        let commands = device_commands(config, cmd, b.global_fade());
        sent_levels_are_in_range(config, cmd, b.global_fade());
        assert forall|i: int| 0 <= i < commands.len() implies match #[trigger] sends(commands)[i] {
            ActionView::Send(LipCommand::SetLevel { level, .. }) => level.settles_in_range(),
            _ => true,
        } by {
            assert(sends(commands)[i] == ActionView::Send(commands[i]));
        }
    }
}

/// Publishes an event of a button.
fn publish_button_event(hc_id: String, component: u32, event: &str) -> (r: Action)
    ensures
        r@ == button_event(hc_id@, component, event@),
{
    let digits = decimal(component);
    let name = prefixed("button_", digits.as_str());
    let mut patch: Vec<Attribute> = Vec::new();
    patch.push(Attribute { name, value: PatchValue::Text(event.to_owned()) });
    assert(patch_view(patch@) =~= seq![
        AttributeView {
            name: button_attribute(component),
            value: PatchValueView::Text(event@),
        },
    ]);
    Action::PublishPartial { hc_id, patch }
}

/// Presses a button and, after a pause, releases it.
fn use_button(integration_id: u32, component: u32) -> (r: Vec<Action>)
    ensures
        actions_view(r@) == button_use(integration_id, component),
{
    let mut actions: Vec<Action> = Vec::new();
    actions.push(
        Action::Send(LipCommand::DeviceAction { integration_id, component, action: ACTION_PRESS }),
    );
    actions.push(Action::Pause { millis: SCENE_PAUSE_MS });
    actions.push(
        Action::Send(
            LipCommand::DeviceAction { integration_id, component, action: ACTION_RELEASE },
        ),
    );
    assert(actions_view(actions@) =~= button_use(integration_id, component));
    actions
}

/// The attribute of an LED.
fn led_attribute_name(component: u32) -> (r: String)
    ensures
        r@ == led_attribute(component),
{
    if component > LED_OFFSET {
        let digits = decimal(component - LED_OFFSET);
        prefixed("led_", digits.as_str())
    } else {
        let digits = decimal(component);
        prefixed("led_component_", digits.as_str())
    }
}

/// Publishes the state of an LED.
fn publish_led(hc_id: String, name: String, state: u8) -> (r: Action)
    ensures
        r@ == led_event(hc_id@, name@, state),
{
    let ghost attribute = name@;
    let mut patch: Vec<Attribute> = Vec::new();
    patch.push(Attribute { name, value: PatchValue::Integer(state as u64) });
    assert(patch_view(patch@) =~= seq![
        AttributeView { name: attribute, value: PatchValueView::Integer(state as u64) },
    ]);
    Action::PublishPartial { hc_id, patch }
}

/// Whether a component is the LED of a scene.
fn scene_led_is_at(scene: &SceneEntry, integration_id: u32, component: u32) -> (r: bool)
    ensures
        r == is_scene_led(*scene, (integration_id, component)),
{
    match scene.config.button_component.checked_add(SCENE_LED_OFFSET) {
        Some(led) => led == component && scene.config.main_repeater_id == integration_id,
        None => false,
    }
}

/// Publishes an LED report under the scenes whose LED it is.
fn publish_scene_leds(
    scenes: &Vec<SceneEntry>,
    integration_id: u32,
    component: u32,
    state: u8,
) -> (r: Vec<Action>)
    ensures
        actions_view(r@) == scene_led_actions(scenes@, (integration_id, component), state),
{
    let ghost c: Component = (integration_id, component);
    let mut actions: Vec<Action> = Vec::new();
    let mut i: usize = 0;
    proof {
        reveal(Seq::filter);
        assert(actions_view(actions@) =~= scene_led_actions(scenes@.take(0), c, state));
    }
    while i < scenes.len()
        invariant
            i <= scenes.len(),
            c == (integration_id, component),
            actions_view(actions@) == scene_led_actions(scenes@.take(i as int), c, state),
        decreases scenes.len() - i,
    {
        let ghost before = actions@;
        proof {
            reveal(Seq::filter);
            assert(scenes@.take(i + 1).drop_last() =~= scenes@.take(i as int));
            assert(scenes@.take(i + 1).last() == scenes@[i as int]);
        }
        if scene_led_is_at(&scenes[i], integration_id, component) {
            actions.push(publish_led(scenes[i].hc_id.clone(), "led".to_owned(), state));
            assert(actions_view(actions@) =~= actions_view(before).push(
                led_event(scenes@[i as int].hc_id@, "led"@, state),
            ));
        }
        assert(actions_view(actions@) =~= scene_led_actions(scenes@.take(i + 1), c, state));
        i += 1;
    }
    assert(scenes@.take(scenes@.len() as int) =~= scenes@);
    actions
}

impl Bridge {
    /// A bridge for these devices and scenes. Where several share an ID, the last one counts.
    pub fn new(devices: Vec<DeviceEntry>, scenes: Vec<SceneEntry>, lutron_cfg: LutronConfig) -> (r:
        Self)
        ensures
            r@ == initial_state(devices@, scenes@, lutron_cfg),
            r@.wf(),
    {
        let ghost all_devices = devices@;
        let ghost all_scenes = scenes@;
        let backoff_secs = lutron_cfg.reconnect_delay_secs;
        let mut device_table: HashMap<u32, DeviceEntry> = HashMap::new();
        let mut hc_to_id: StringHashMap<u32> = StringHashMap::new();
        for dev in it: devices.into_iter()
            invariant
                it.seq() == all_devices,
                device_table@ == device_map(all_devices.take(it.index() as int)),
                hc_to_id@ == route_map(all_devices.take(it.index() as int)),
        {
            proof {
                let i = it.index() as int;
                assert(all_devices.take(i + 1).drop_last() =~= all_devices.take(i));
            }
            let integration_id = dev.config.integration_id;
            hc_to_id.insert(dev.hc_id.clone(), integration_id);
            device_table.insert(integration_id, dev);
        }
        let mut hc_to_scene: StringHashMap<usize> = StringHashMap::new();
        let mut i: usize = 0;
        while i < scenes.len()
            invariant
                i <= scenes.len(),
                scenes@ == all_scenes,
                hc_to_scene@ == scene_route_map(all_scenes.take(i as int)),
            decreases scenes.len() - i,
        {
            proof {
                assert(all_scenes.take(i + 1).drop_last() =~= all_scenes.take(i as int));
            }
            hc_to_scene.insert(scenes[i].hc_id.clone(), i);
            i += 1;
        }
        let bridge = Bridge {
            devices: device_table,
            hc_to_id,
            scenes,
            hc_to_scene,
            hold_timers: HashSet::new(),
            leds: HashMap::new(),
            lutron_cfg,
            backoff_secs,
        };
        proof {
            assert(all_devices.take(all_devices.len() as int) =~= all_devices);
            assert(all_scenes.take(all_scenes.len() as int) =~= all_scenes);
            assert(bridge@.pending =~= Set::empty());
            assert(bridge@.leds =~= Map::empty());
            initial_state_is_wf(all_devices, all_scenes, lutron_cfg);
        }
        bridge
    }

    /// The connection settings that the bridge was made with.
    pub fn lutron_cfg(&self) -> (r: &LutronConfig)
        ensures
            *r == self@.lutron_cfg,
    {
        &self.lutron_cfg
    }

    /// Stops the hold timer of a button, if it is running.
    fn cancel_hold_timer(&mut self, integration_id: u32, component: u32) -> (r: Vec<Action>)
        ensures
            final(self)@ == (BridgeView {
                pending: old(self)@.pending.remove((integration_id, component)),
                ..old(self)@
            }),
            actions_view(r@) == cancel_timer(old(self)@, (integration_id, component)),
    {
        proof {
            unpacked_after(
                self.hold_timers@,
                self.leds@,
                (integration_id, component),
                0,
            );
        }
        let mut actions: Vec<Action> = Vec::new();
        if self.hold_timers.remove(&pack(integration_id, component)) {
            actions.push(Action::CancelHoldTimer { keypad_id: integration_id, button: component });
        }
        assert(actions_view(actions@) =~= cancel_timer(old(self)@, (integration_id, component)));
        actions
    }

    /// Handles a message from the repeater.
    pub fn handle_lip_message(&mut self, msg: LipMessage) -> (r: Vec<Action>)
        requires
            old(self)@.wf(),
        ensures
            final(self)@ == after_message(old(self)@, msg),
            final(self)@.wf(),
            actions_view(r@) == message_actions(old(self)@, msg),
    {
        let mut actions: Vec<Action> = Vec::new();
        match msg {
            LipMessage::Output { integration_id, action: OutputAction::ZoneLevel, value } => {
                if let Some(dev) = self.devices.get(&integration_id) {
                    if let Some(patch) = dev.translate_output_state(value) {
                        actions.push(Action::PublishState { hc_id: dev.hc_id.clone(), patch });
                    }
                }
            },
            LipMessage::Group { integration_id, state } => {
                if let Some(dev) = self.devices.get(&integration_id) {
                    let patch = dev.translate_occupancy_state(
                        matches!(state, OccupancyState::Occupied),
                    );
                    actions.push(Action::PublishState { hc_id: dev.hc_id.clone(), patch });
                }
            },
            LipMessage::Device { integration_id, component, action } => {
                return self.handle_device_event(integration_id, component, action);
            },
            _ => {},
        }
        assert(actions_view(actions@) =~= message_actions(old(self)@, msg));
        actions
    }

    /// Handles a report of a device's component.
    pub fn handle_device_event(
        &mut self,
        integration_id: u32,
        component: u32,
        action: DeviceAction,
    ) -> (r: Vec<Action>)
        requires
            old(self)@.wf(),
        ensures
            final(self)@ == after_device_event(old(self)@, (integration_id, component), action),
            final(self)@.wf(),
            actions_view(r@) == device_event_actions(
                old(self)@,
                (integration_id, component),
                action,
            ),
    {
        let ghost c: Component = (integration_id, component);
        let mut actions: Vec<Action> = Vec::new();
        if let DeviceAction::Led(state) = action {
            proof {
                unpacked_after(self.hold_timers@, self.leds@, c, state);
            }
            self.leds.insert(pack(integration_id, component), state);
            if let Some(dev) = self.devices.get(&integration_id) {
                if matches!(dev.config.kind, DeviceKind::Keypad) {
                    let name = led_attribute_name(component);
                    actions.push(publish_led(dev.hc_id.clone(), name, state));
                }
            }
            let ghost of_device = actions@;
            let mut of_scenes = publish_scene_leds(&self.scenes, integration_id, component, state);
            let ghost views = of_scenes@;
            actions.append(&mut of_scenes);
            assert(actions_view(actions@) =~= actions_view(of_device) + actions_view(views));
            assert(actions_view(actions@) =~= led_actions(old(self)@, c, state));
            return actions;
        }
        let hc_id = match self.devices.get(&integration_id) {
            Some(dev) => {
                if !dev.is_button_component(component) {
                    assert(actions_view(actions@) =~= seq![]);
                    return actions;
                }
                dev.hc_id.clone()
            },
            None => {
                assert(actions_view(actions@) =~= seq![]);
                return actions;
            },
        };
        match action {
            DeviceAction::Press => {
                proof {
                    unpacked_after(self.hold_timers@, self.leds@, c, 0);
                }
                actions.push(publish_button_event(hc_id, component, "press"));
                self.hold_timers.insert(pack(integration_id, component));
                actions.push(
                    Action::StartHoldTimer {
                        keypad_id: integration_id,
                        button: component,
                        after_ms: self.lutron_cfg.hold_threshold_ms,
                    },
                );
            },
            DeviceAction::Release => {
                actions = self.cancel_hold_timer(integration_id, component);
                actions.push(publish_button_event(hc_id, component, "release"));
            },
            DeviceAction::DoubleClick => {
                actions = self.cancel_hold_timer(integration_id, component);
                actions.push(publish_button_event(hc_id, component, "double_click"));
            },
            DeviceAction::Led(_) => {},
        }
        assert(actions_view(actions@) =~= device_event_actions(old(self)@, c, action));
        actions
    }

    /// Handles a hold timer that ran out.
    pub fn handle_hold_event(&mut self, keypad_id: u32, button: u32) -> (r: Vec<Action>)
        requires
            old(self)@.wf(),
        ensures
            final(self)@ == after_hold(old(self)@, (keypad_id, button)),
            final(self)@.wf(),
            actions_view(r@) == hold_actions(old(self)@, (keypad_id, button)),
    {
        let mut actions = self.cancel_hold_timer(keypad_id, button);
        if let Some(dev) = self.devices.get(&keypad_id) {
            actions.push(publish_button_event(dev.hc_id.clone(), button, "hold"));
        }
        assert(actions_view(actions@) =~= hold_actions(old(self)@, (keypad_id, button)));
        actions
    }

    /// Handles a command payload from HomeCore.
    pub fn handle_homecore_command(&self, hc_id: &str, cmd: serde_json::Value) -> (r: Vec<Action>)
        requires
            self@.wf(),
        ensures
            actions_view(r@) == command_actions(self@, hc_id@, command_of(cmd)),
            sent_levels_settle_in_range(actions_view(r@)),
    {
        let request = read_command(&cmd);
        proof {
            commands_set_levels_in_range(self@, hc_id@, request);
        }
        self.carry_out(hc_id, &request)
    }

    /// Carries out a command from HomeCore: activates a scene, or controls a device.
    pub fn carry_out(&self, hc_id: &str, cmd: &Command) -> (r: Vec<Action>)
        requires
            self@.wf(),
        ensures
            actions_view(r@) == command_actions(self@, hc_id@, *cmd),
    {
        if let Some(scene_idx) = self.hc_to_scene.get(hc_id) {
            if matches!(cmd.activate, Some(true)) {
                assert(self@.scene_routes.contains_key(hc_id@));
                let config = &self.scenes[*scene_idx].config;
                return use_button(config.main_repeater_id, config.button_component);
            }
            let none: Vec<Action> = Vec::new();
            assert(actions_view(none@) =~= seq![]);
            return none;
        }
        if let Some(integration_id) = self.hc_to_id.get(hc_id) {
            if let Some(dev) = self.devices.get(integration_id) {
                if let Some(button) = dev.button_to_press(cmd) {
                    return use_button(dev.config.integration_id, button);
                }
                let commands = dev.commands_for(cmd, self.lutron_cfg.default_fade_secs);
                return send_all(&commands);
            }
        }
        let none: Vec<Action> = Vec::new();
        assert(actions_view(none@) =~= seq![]);
        none
    }

    /// What to ask about all devices once connected, in no particular order of devices.
    pub fn query_all_states(&self) -> (r: Vec<LipCommand>)
        requires
            self@.wf(),
        ensures
            queries_all(self@.devices, r@),
    {
        let mut queries: Vec<LipCommand> = Vec::new();
        let pairs = self.devices.iter();
        let ghost visited = vstd::std_specs::iter::IteratorSpec::remaining(&pairs);
        let ghost order = Seq::new(visited.len(), |i: int| *visited[i].0);
        for pair in it: pairs
            invariant
                it.seq() == visited,
                order == Seq::new(visited.len(), |i: int| *visited[i].0),
                forall|i: int|
                    0 <= i < visited.len() ==> self.devices@.contains_key(
                        *(#[trigger] visited[i]).0,
                    ) && self.devices@[*visited[i].0] == *visited[i].1,
                queries@ == queries_in_order(self.devices@, order.take(it.index() as int)),
        {
            proof {
                let i = it.index() as int;
                assert(order.take(i + 1).drop_last() =~= order.take(i));
                assert(order.take(i + 1).last() == *visited[i].0);
            }
            push_queries(&mut queries, pair.1);
        }
        proof {
            assert(order.take(order.len() as int) =~= order);
            assert forall|id: u32| order.contains(id) <==> #[trigger] self@.devices.contains_key(
                id,
            ) by {
                if self@.devices.contains_key(id) {
                    assert(visited.contains((&id, &self.devices@[id])));
                    let i = visited.index_of((&id, &self.devices@[id]));
                    assert(order[i] == id);
                }
            }
            assert(visits_all(self@.devices, order));
        }
        queries
    }

    /// Last reported LED state of a scene's phantom button.
    pub fn scene_led(&self, hc_id: &str) -> (r: Option<u8>)
        requires
            self@.wf(),
        ensures
            r == scene_led_state(self@, hc_id@),
    {
        if let Some(scene_idx) = self.hc_to_scene.get(hc_id) {
            assert(self@.scene_routes.contains_key(hc_id@));
            let scene = &self.scenes[*scene_idx];
            if let Some(component) = scene.config.button_component.checked_add(SCENE_LED_OFFSET) {
                return self.led(scene.config.main_repeater_id, component);
            }
        }
        None
    }

    /// Last reported LED state of a device's button.
    pub fn button_led(&self, hc_id: &str, button: u32) -> (r: Option<u8>)
        requires
            self@.wf(),
        ensures
            r == button_led_state(self@, hc_id@, button),
    {
        if let Some(integration_id) = self.hc_to_id.get(hc_id) {
            if let Some(component) = led_component_for_button(button) {
                return self.led(*integration_id, component);
            }
        }
        None
    }

    fn led(&self, integration_id: u32, component: u32) -> (r: Option<u8>)
        ensures
            r == led_at(self@, (integration_id, component)),
    {
        match self.leds.get(&pack(integration_id, component)) {
            Some(state) => Some(*state),
            None => None,
        }
    }

    /// Takes an event: what to do about it, and how to go on.
    pub fn step(&mut self, event: Event) -> (r: Step)
        requires
            old(self)@.wf(),
        ensures
            final(self)@ == after_event(old(self)@, event),
            final(self)@.wf(),
            event_leads_to(old(self)@, event, actions_view(r.actions@)),
            r.next == event_next(old(self)@, event),
            event is Command ==> sent_levels_settle_in_range(actions_view(r.actions@)),
    {
        let mut actions: Vec<Action> = Vec::new();
        let mut next = Next::Continue;
        match event {
            Event::Connected => {
                let queries = self.query_all_states();
                actions = send_all(&queries);
                self.backoff_secs = self.lutron_cfg.reconnect_delay_secs;
            },
            Event::Message(msg) => {
                actions = self.handle_lip_message(msg);
            },
            Event::Command { hc_id, payload } => {
                actions = self.handle_homecore_command(hc_id.as_str(), payload);
            },
            Event::HomecoreClosed => {
                next = Next::Shutdown;
                assert(actions_view(actions@) =~= seq![]);
            },
            Event::HoldFired { keypad_id, button } => {
                actions = self.handle_hold_event(keypad_id, button);
            },
            Event::KeepaliveDue => {
                actions.push(Action::SendKeepalive);
                assert(actions_view(actions@) =~= seq![ActionView::SendKeepalive]);
            },
            Event::ConnectionLost => {
                actions.push(Action::CancelAllHoldTimers);
                assert(actions_view(actions@) =~= seq![ActionView::CancelAllHoldTimers]);
                self.hold_timers.clear();
                assert(self@.pending =~= Set::empty());
                next = Next::Reconnect { delay_secs: self.backoff_secs };
                self.backoff_secs = if self.backoff_secs < MAX_BACKOFF_SECS / 2 {
                    2 * self.backoff_secs
                } else {
                    MAX_BACKOFF_SECS
                };
            },
        }
        Step { actions, next }
    }
}

/// Adds what is asked about a device.
fn push_queries(queries: &mut Vec<LipCommand>, dev: &DeviceEntry)
    ensures
        final(queries)@ == old(queries)@ + device_queries(dev.config),
{
    let integration_id = dev.config.integration_id;
    if dev.is_output() {
        queries.push(LipCommand::QueryOutput { integration_id });
    } else if dev.is_group() {
        queries.push(LipCommand::QueryGroup { integration_id });
    } else if matches!(dev.config.kind, DeviceKind::Keypad) {
        let buttons = dev.button_components();
        let mut i: usize = 0;
        while i < buttons.len()
            invariant
                i <= buttons.len(),
                buttons@ == dev.config.buttons@,
                integration_id == dev.config.integration_id,
                queries@ == old(queries)@ + led_queries(integration_id, buttons@.take(i as int)),
            decreases buttons.len() - i,
        {
            proof {
                assert(buttons@.take(i + 1).drop_last() =~= buttons@.take(i as int));
            }
            if let Some(component) = led_component_for_button(buttons[i]) {
                queries.push(LipCommand::QueryLed { integration_id, component });
            }
            i += 1;
        }
        assert(buttons@.take(buttons@.len() as int) =~= buttons@);
    }
}

} // verus!
