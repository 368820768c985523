//! What each event comes to, in plain values: the actions that follow from it, and the state that
//! it leaves behind.

use crate::action::{sends, ActionView};
use crate::bridge::{
    after_device_event, after_event, after_message, button_led_state, command_actions,
    device_actions, device_event_actions, device_map, device_queries, event_leads_to, event_next,
    hold_actions, initial_state, is_scene_led, led_at, led_queries, message_actions,
    queries_all, queries_in_order, route_map, scene_led_actions, scene_led_state, scene_route_map,
    visits_all, BridgeView, Component, Event, Next, KEEPALIVE_SECS, MAX_BACKOFF_SECS,
    SCENE_PAUSE_MS,
};
use crate::command::{command_of, Command};
use crate::config::LutronConfig;
use crate::devices::{
    device_commands, dimmers_show_their_level, shades_show_their_position,
    switches_show_whether_they_are_on, DeviceEntry, SceneEntry,
};
use crate::number::Number;
use crate::patch::{AttributeView, PatchValueView};
use crate::protocol::{DeviceAction, LipCommand, LipMessage, OccupancyState, OutputAction};
use crate::startup::{MAX_ATTEMPTS, RETRY_DELAY_SECS};
use crate::text::decimal_digits;
use vstd::prelude::*;

verus! {

/// Every zone level of a dimmer, zero included, is published once, as the state of that dimmer: on
/// exactly if the level is a number greater than zero, and the level in percent and out of 255.
pub proof fn dimmer_levels_are_published(b: BridgeView, id: u32, value: Number)
    requires
        b.devices.contains_key(id),
        b.devices[id].config.kind is Dimmer,
    ensures
        message_actions(
            b,
            LipMessage::Output { integration_id: id, action: OutputAction::ZoneLevel, value },
        ) == seq![
            ActionView::PublishState {
                hc_id: b.devices[id].hc_id@,
                patch: seq![
                    AttributeView {
                        name: "on"@,
                        value: PatchValueView::Flag(0 < value.bits <= 0x7FF0_0000_0000_0000),
                    },
                    AttributeView { name: "brightness_pct"@, value: PatchValueView::Tenths(value) },
                    AttributeView { name: "brightness"@, value: PatchValueView::Byte(value) },
                ],
            },
        ],
{
    dimmers_show_their_level(b.devices[id].config, value);
}

/// Every zone level of a switch, zero included, is published once, as the state of that switch: on
/// exactly if the level is a number greater than zero.
pub proof fn switch_levels_are_published(b: BridgeView, id: u32, value: Number)
    requires
        b.devices.contains_key(id),
        b.devices[id].config.kind is Switch,
    ensures
        message_actions(
            b,
            LipMessage::Output { integration_id: id, action: OutputAction::ZoneLevel, value },
        ) == seq![
            ActionView::PublishState {
                hc_id: b.devices[id].hc_id@,
                patch: seq![
                    AttributeView {
                        name: "on"@,
                        value: PatchValueView::Flag(0 < value.bits <= 0x7FF0_0000_0000_0000),
                    },
                ],
            },
        ],
{
    switches_show_whether_they_are_on(b.devices[id].config, value);
}

/// Every zone level of a shade is published once, as the position of that shade, counted from the
/// end that is configured.
pub proof fn shade_levels_are_published(b: BridgeView, id: u32, value: Number)
    requires
        b.devices.contains_key(id),
        b.devices[id].config.kind is Shade,
    ensures
        message_actions(
            b,
            LipMessage::Output { integration_id: id, action: OutputAction::ZoneLevel, value },
        ) == seq![
            ActionView::PublishState {
                hc_id: b.devices[id].hc_id@,
                patch: seq![
                    AttributeView {
                        name: "position"@,
                        value: if b.devices[id].config.invert_position {
                            PatchValueView::InvertedTenths(value)
                        } else {
                            PatchValueView::Tenths(value)
                        },
                    },
                ],
            },
        ],
{
    shades_show_their_position(b.devices[id].config, value);
}

/// Nothing else that is said of an output is published: not what is no zone level, and no level of
/// a device that has none or is not configured.
pub proof fn other_output_reports_are_not_published(
    b: BridgeView,
    id: u32,
    action: OutputAction,
    value: Number,
)
    requires
        action is Other || !b.devices.contains_key(id) || b.devices[id].config.kind is Keypad
            || b.devices[id].config.kind is Pico || b.devices[id].config.kind is OccupancyGroup
            || b.devices[id].config.kind is Vcrx,
    ensures
        message_actions(b, LipMessage::Output { integration_id: id, action, value }).len() == 0,
{
}

/// Every report of a configured group is published once: occupied if it says so, vacant otherwise.
/// Reports of groups that are not configured are not published.
pub proof fn occupancy_is_published(b: BridgeView, id: u32, state: OccupancyState)
    ensures
        b.devices.contains_key(id) ==> message_actions(
            b,
            LipMessage::Group { integration_id: id, state },
        ) == seq![
            ActionView::PublishState {
                hc_id: b.devices[id].hc_id@,
                patch: seq![
                    AttributeView {
                        name: "occupied"@,
                        value: PatchValueView::Flag(state is Occupied),
                    },
                    AttributeView {
                        name: "occupancy"@,
                        value: PatchValueView::Flag(state is Occupied),
                    },
                ],
            },
        ],
        !b.devices.contains_key(id) ==> message_actions(
            b,
            LipMessage::Group { integration_id: id, state },
        ).len() == 0,
{
}

/// Prompts, errors and unknown lines lead to nothing and change nothing.
pub proof fn other_messages_lead_to_nothing(b: BridgeView, msg: LipMessage)
    requires
        msg is Prompt || msg is Error || msg is Unknown,
    ensures
        message_actions(b, msg).len() == 0,
        after_message(b, msg) == b,
{
}

/// A press of a button is published as a press of that button, under its device, and then its hold
/// timer is started with the configured threshold. Nothing else follows from it.
pub proof fn presses_are_published(b: BridgeView, c: Component)
    requires
        b.devices.contains_key(c.0),
        b.devices[c.0].config.kind is Keypad || b.devices[c.0].config.kind is Pico || (
        b.devices[c.0].config.kind is Vcrx && !b.devices[c.0].config.ccis@.contains(c.1)),
    ensures
        device_event_actions(b, c, DeviceAction::Press) == seq![
            ActionView::PublishPartial {
                hc_id: b.devices[c.0].hc_id@,
                patch: seq![
                    AttributeView {
                        name: "button_"@ + decimal_digits(c.1 as nat),
                        value: PatchValueView::Text("press"@),
                    },
                ],
            },
            ActionView::StartHoldTimer {
                keypad_id: c.0,
                button: c.1,
                after_ms: b.lutron_cfg.hold_threshold_ms,
            },
        ],
        after_device_event(b, c, DeviceAction::Press) == (BridgeView {
            pending: b.pending.insert(c),
            ..b
        }),
{
}

/// A release of a button is published last, as a release of that button, under its device, whether
/// or not its hold timer is running; the timer is stopped before that if it is running. Nothing
/// else follows from it.
pub proof fn releases_are_published(b: BridgeView, c: Component)
    requires
        b.devices.contains_key(c.0),
        b.devices[c.0].config.kind is Keypad || b.devices[c.0].config.kind is Pico || (
        b.devices[c.0].config.kind is Vcrx && !b.devices[c.0].config.ccis@.contains(c.1)),
    ensures
        ({
            let actions = device_event_actions(b, c, DeviceAction::Release);
            &&& actions.last() == (ActionView::PublishPartial {
                hc_id: b.devices[c.0].hc_id@,
                patch: seq![
                    AttributeView {
                        name: "button_"@ + decimal_digits(c.1 as nat),
                        value: PatchValueView::Text("release"@),
                    },
                ],
            })
            &&& b.pending.contains(c) ==> actions.len() == 2 && actions[0] == (
            ActionView::CancelHoldTimer { keypad_id: c.0, button: c.1 })
            &&& !b.pending.contains(c) ==> actions.len() == 1
        }),
        after_device_event(b, c, DeviceAction::Release) == (BridgeView {
            pending: b.pending.remove(c),
            ..b
        }),
{
}

/// A double click of a button is published last, as a double click of that button, under its
/// device, whether or not its hold timer is running; the timer is stopped before that if it is
/// running. Nothing else follows from it, and no other event of a button is published.
pub proof fn double_clicks_are_published(b: BridgeView, c: Component)
    requires
        b.devices.contains_key(c.0),
        b.devices[c.0].config.kind is Keypad || b.devices[c.0].config.kind is Pico || (
        b.devices[c.0].config.kind is Vcrx && !b.devices[c.0].config.ccis@.contains(c.1)),
    ensures
        ({
            let actions = device_event_actions(b, c, DeviceAction::DoubleClick);
            &&& actions.last() == (ActionView::PublishPartial {
                hc_id: b.devices[c.0].hc_id@,
                patch: seq![
                    AttributeView {
                        name: "button_"@ + decimal_digits(c.1 as nat),
                        value: PatchValueView::Text("double_click"@),
                    },
                ],
            })
            &&& b.pending.contains(c) ==> actions.len() == 2 && actions[0] == (
            ActionView::CancelHoldTimer { keypad_id: c.0, button: c.1 })
            &&& !b.pending.contains(c) ==> actions.len() == 1
            &&& forall|i: int|
                0 <= i < actions.len() - 1 ==> !(#[trigger] actions[i] is PublishPartial)
        }),
        after_device_event(b, c, DeviceAction::DoubleClick) == (BridgeView {
            pending: b.pending.remove(c),
            ..b
        }),
{
}

/// A hold timer of a configured device that ran out is published last, as a hold of that button,
/// under its device, whether or not the timer still counts as running; it does not afterwards.
/// Nothing is published for a device that is not configured.
pub proof fn holds_are_published(b: BridgeView, c: Component)
    ensures
        ({
            let actions = hold_actions(b, c);
            let stops: nat = if b.pending.contains(c) {
                1
            } else {
                0
            };
            &&& b.devices.contains_key(c.0) ==> actions.len() == stops + 1 && actions.last() == (
            ActionView::PublishPartial {
                hc_id: b.devices[c.0].hc_id@,
                patch: seq![
                    AttributeView {
                        name: "button_"@ + decimal_digits(c.1 as nat),
                        value: PatchValueView::Text("hold"@),
                    },
                ],
            })
            &&& !b.devices.contains_key(c.0) ==> actions.len() == stops
            &&& b.pending.contains(c) ==> actions[0] == (ActionView::CancelHoldTimer {
                keypad_id: c.0,
                button: c.1,
            })
        }),
        after_event(b, Event::HoldFired { keypad_id: c.0, button: c.1 }) == (BridgeView {
            pending: b.pending.remove(c),
            ..b
        }),
{
}

/// A report of a component that is no button, other than of an LED, leads to nothing and changes
/// nothing: one of a device that is not configured or has no buttons, or of a contact closure
/// input.
pub proof fn only_buttons_have_button_events(b: BridgeView, c: Component, action: DeviceAction)
    requires
        !(action is Led),
        !b.devices.contains_key(c.0) || b.devices[c.0].config.kind is Dimmer
            || b.devices[c.0].config.kind is Switch || b.devices[c.0].config.kind is Shade
            || b.devices[c.0].config.kind is OccupancyGroup || (b.devices[c.0].config.kind is Vcrx
            && b.devices[c.0].config.ccis@.contains(c.1)),
    ensures
        device_event_actions(b, c, action).len() == 0,
        after_device_event(b, c, action) == b,
{
}

/// A report of a component past the eightieth of a keypad is published first, as the LED of the
/// button eighty before it, and one of an earlier component by its own number, with the state that
/// was reported. What follows is for scenes. Only keypads publish their LEDs.
pub proof fn keypad_leds_are_published_by_button(b: BridgeView, c: Component, state: u8)
    ensures
        b.devices.contains_key(c.0) && b.devices[c.0].config.kind is Keypad
            ==> device_event_actions(b, c, DeviceAction::Led(state)) == seq![
            ActionView::PublishPartial {
                hc_id: b.devices[c.0].hc_id@,
                patch: seq![
                    AttributeView {
                        name: if c.1 > 80 {
                            "led_"@ + decimal_digits((c.1 - 80) as nat)
                        } else {
                            "led_component_"@ + decimal_digits(c.1 as nat)
                        },
                        value: PatchValueView::Integer(state as u64),
                    },
                ],
            },
        ] + scene_led_actions(b.scenes, c, state),
        !(b.devices.contains_key(c.0) && b.devices[c.0].config.kind is Keypad)
            ==> device_event_actions(b, c, DeviceAction::Led(state)) == scene_led_actions(
            b.scenes,
            c,
            state,
        ),
        after_device_event(b, c, DeviceAction::Led(state)) == (BridgeView {
            leds: b.leds.insert(c, state),
            ..b
        }),
{
    assert(Seq::<ActionView>::empty() + scene_led_actions(b.scenes, c, state)
        =~= scene_led_actions(b.scenes, c, state));
}

/// Of scenes one after the other, each whose phantom button stands a hundred before the reported
/// component on the same repeater publishes the state as its LED, in its turn, and no other does.
pub proof fn scene_leds_are_published_in_turn(
    scenes: Seq<SceneEntry>,
    scene: SceneEntry,
    c: Component,
    state: u8,
)
    ensures
        scene_led_actions(seq![], c, state).len() == 0,
        scene.config.main_repeater_id == c.0 && c.1 == scene.config.button_component + 100
            ==> scene_led_actions(scenes.push(scene), c, state) == scene_led_actions(
            scenes,
            c,
            state,
        ).push(
            ActionView::PublishPartial {
                hc_id: scene.hc_id@,
                patch: seq![
                    AttributeView {
                        name: "led"@,
                        value: PatchValueView::Integer(state as u64),
                    },
                ],
            },
        ),
        !(scene.config.main_repeater_id == c.0 && c.1 == scene.config.button_component + 100)
            ==> scene_led_actions(scenes.push(scene), c, state) == scene_led_actions(
            scenes,
            c,
            state,
        ),
{
    reveal(Seq::filter);
    let is_led = |s: SceneEntry| is_scene_led(s, c);
    let all = scenes.push(scene);
    assert(all.drop_last() =~= scenes);
    assert(all.filter(is_led) == if is_led(scene) {
        scenes.filter(is_led).push(scene)
    } else {
        scenes.filter(is_led)
    });
    if is_led(scene) {
        assert(scene_led_actions(all, c, state) =~= scene_led_actions(scenes, c, state).push(
            ActionView::PublishPartial {
                hc_id: scene.hc_id@,
                patch: seq![
                    AttributeView { name: "led"@, value: PatchValueView::Integer(state as u64) },
                ],
            },
        ));
    }
}

/// A report of a component leads to what it leads to whichever way it comes in: as a report, in a
/// message, or in an event.
pub proof fn messages_are_handled_as_they_come(b: BridgeView, msg: LipMessage, actions: Seq<
    ActionView,
>)
    ensures
        event_leads_to(b, Event::Message(msg), actions) <==> actions == message_actions(b, msg),
        after_event(b, Event::Message(msg)) == after_message(b, msg),
        msg matches LipMessage::Device { integration_id, component, action } ==> {
            &&& message_actions(b, msg) == device_event_actions(
                b,
                (integration_id, component),
                action,
            )
            &&& after_message(b, msg) == after_device_event(
                b,
                (integration_id, component),
                action,
            )
        },
        msg is Output || msg is Group ==> after_message(b, msg) == b,
{
}

/// A command to a scene that says to activate presses its phantom button on its main repeater,
/// waits a tenth of a second and releases it. Any other command to a scene leads to nothing.
pub proof fn scenes_are_activated(b: BridgeView, hc_id: Seq<char>, cmd: Command)
    requires
        b.scene_routes.contains_key(hc_id),
    ensures
        cmd.activate == Some(true) ==> command_actions(b, hc_id, cmd) == ({
            let config = b.scenes[b.scene_routes[hc_id] as int].config;
            seq![
                ActionView::Send(
                    LipCommand::DeviceAction {
                        integration_id: config.main_repeater_id,
                        component: config.button_component,
                        action: 3,
                    },
                ),
                ActionView::Pause { millis: 100 },
                ActionView::Send(
                    LipCommand::DeviceAction {
                        integration_id: config.main_repeater_id,
                        component: config.button_component,
                        action: 4,
                    },
                ),
            ]
        }),
        cmd.activate != Some(true) ==> command_actions(b, hc_id, cmd).len() == 0,
{
}

/// A command to a keypad or a receiver that asks to press a button, and names none whose LED is to
/// be set, presses that button, waits a tenth of a second and releases it.
pub proof fn pressed_buttons_are_released(b: BridgeView, hc_id: Seq<char>, cmd: Command, n: u64)
    requires
        !b.scene_routes.contains_key(hc_id),
        b.routes.contains_key(hc_id),
        b.devices.contains_key(b.routes[hc_id]),
        b.devices[b.routes[hc_id]].config.kind is Keypad
            || b.devices[b.routes[hc_id]].config.kind is Vcrx,
        cmd.set_led is None || cmd.set_led->0.button is None || cmd.set_led->0.button->0
            % 4294967296 == 0,
        cmd.press_button == Some(n),
        n % 4294967296 > 0,
    ensures
        command_actions(b, hc_id, cmd) == ({
            let integration_id = b.devices[b.routes[hc_id]].config.integration_id;
            let component = (n % 4294967296) as u32;
            seq![
                ActionView::Send(
                    LipCommand::DeviceAction { integration_id, component, action: 3 },
                ),
                ActionView::Pause { millis: 100 },
                ActionView::Send(
                    LipCommand::DeviceAction { integration_id, component, action: 4 },
                ),
            ]
        }),
{
}

/// Any other command to a device sends what the device makes of it, with the global fade time, in
/// order and nothing besides. A command to an ID that leads nowhere leads to nothing.
pub proof fn devices_get_their_commands(b: BridgeView, hc_id: Seq<char>, cmd: Command)
    requires
        !b.scene_routes.contains_key(hc_id),
        cmd.press_button is None || cmd.press_button->0 % 4294967296 == 0,
    ensures
        b.routes.contains_key(hc_id) && b.devices.contains_key(b.routes[hc_id]) ==> {
            let commands = device_commands(
                b.devices[b.routes[hc_id]].config,
                cmd,
                b.lutron_cfg.default_fade_secs,
            );
            &&& command_actions(b, hc_id, cmd).len() == commands.len()
            &&& forall|i: int|
                0 <= i < commands.len() ==> #[trigger] command_actions(b, hc_id, cmd)[i]
                    == ActionView::Send(commands[i])
        },
        !(b.routes.contains_key(hc_id) && b.devices.contains_key(b.routes[hc_id]))
            ==> command_actions(b, hc_id, cmd).len() == 0,
{
}

/// A request to press a button makes no difference to devices whose buttons cannot be pressed, nor
/// beside a request that names a button whose LED is to be set.
pub proof fn other_press_requests_make_no_difference(
    b: BridgeView,
    hc_id: Seq<char>,
    cmd: Command,
    press_button: Option<u64>,
)
    requires
        b.routes.contains_key(hc_id) && b.devices.contains_key(b.routes[hc_id]) ==> !(
        b.devices[b.routes[hc_id]].config.kind is Keypad
            || b.devices[b.routes[hc_id]].config.kind is Vcrx) || (cmd.set_led is Some
            && cmd.set_led->0.button is Some && cmd.set_led->0.button->0 % 4294967296 > 0),
    ensures
        command_actions(b, hc_id, cmd) == command_actions(
            b,
            hc_id,
            (Command { press_button, ..cmd }),
        ),
{
    if b.routes.contains_key(hc_id) && b.devices.contains_key(b.routes[hc_id]) {
        let config = b.devices[b.routes[hc_id]].config;
        assert(device_actions(config, cmd, b.global_fade()) == device_actions(
            config,
            (Command { press_button, ..cmd }),
            b.global_fade(),
        ));
    }
}

/// Each of the other events leads to what it is for: a command to what its payload says, a due
/// keepalive to one, a lost connection to the end of all timers, and the end of HomeCore to nothing.
pub proof fn events_lead_to_what_they_are_for(b: BridgeView, event: Event, actions: Seq<ActionView>)
    requires
        event_leads_to(b, event, actions),
    ensures
        event matches Event::Command { hc_id, payload } ==> actions == command_actions(
            b,
            hc_id@,
            command_of(payload),
        ),
        event matches Event::HoldFired { keypad_id, button } ==> actions == hold_actions(
            b,
            (keypad_id, button),
        ),
        event is KeepaliveDue ==> actions == seq![ActionView::SendKeepalive],
        event is ConnectionLost ==> actions == seq![ActionView::CancelAllHoldTimers],
        event is HomecoreClosed ==> actions.len() == 0,
{
}

/// After each of the other events the state is as before, but that a connection that was made resets
/// the wait to the configured one, and that a lost one ends all timers and doubles the wait, up to a
/// minute.
pub proof fn events_leave_their_state(b: BridgeView, event: Event)
    ensures
        event is Command || event is KeepaliveDue || event is HomecoreClosed ==> after_event(
            b,
            event,
        ) == b,
        event is Connected ==> after_event(b, event) == (BridgeView {
            backoff_secs: b.lutron_cfg.reconnect_delay_secs,
            ..b
        }),
        event is ConnectionLost ==> after_event(b, event) == (BridgeView {
            pending: Set::empty(),
            backoff_secs: if 2 * b.backoff_secs < 60 {
                (2 * b.backoff_secs) as u64
            } else {
                60
            },
            ..b
        }),
{
}

/// The bridge stops when HomeCore does, connects anew after the wait that is due when the connection
/// was lost, and otherwise goes on.
pub proof fn only_two_events_end_a_session(b: BridgeView, event: Event)
    ensures
        event is HomecoreClosed <==> event_next(b, event) is Shutdown,
        event is ConnectionLost <==> event_next(b, event) is Reconnect,
        event is ConnectionLost ==> event_next(b, event) == (Next::Reconnect {
            delay_secs: b.backoff_secs,
        }),
{
}

/// A new bridge has no timers running and no LED states, waits as configured, and holds its scenes
/// as they were given.
pub proof fn new_bridges_are_idle(
    devices: Seq<DeviceEntry>,
    scenes: Seq<SceneEntry>,
    cfg: LutronConfig,
)
    ensures
        initial_state(devices, scenes, cfg).pending == Set::<Component>::empty(),
        initial_state(devices, scenes, cfg).leds == Map::<Component, u8>::empty(),
        initial_state(devices, scenes, cfg).backoff_secs == cfg.reconnect_delay_secs,
        initial_state(devices, scenes, cfg).lutron_cfg == cfg,
        initial_state(devices, scenes, cfg).scenes == scenes,
        initial_state(devices, scenes, cfg).devices == device_map(devices),
        initial_state(devices, scenes, cfg).routes == route_map(devices),
        initial_state(devices, scenes, cfg).scene_routes == scene_route_map(scenes),
{
}

/// Each further device is found by its integration ID and its HomeCore ID, in place of earlier ones
/// with the same, and all others are found as before. Without devices none is found.
pub proof fn further_devices_are_found(devices: Seq<DeviceEntry>, dev: DeviceEntry)
    ensures
        device_map(seq![]) == Map::<u32, DeviceEntry>::empty(),
        route_map(seq![]) == Map::<Seq<char>, u32>::empty(),
        device_map(devices.push(dev)) == device_map(devices).insert(
            dev.config.integration_id,
            dev,
        ),
        route_map(devices.push(dev)) == route_map(devices).insert(
            dev.hc_id@,
            dev.config.integration_id,
        ),
{
    assert(devices.push(dev).drop_last() =~= devices);
}

/// Each further scene is found by its HomeCore ID at its own position, in place of an earlier one
/// with the same, and all others are found as before. Without scenes none is found.
pub proof fn further_scenes_are_found(scenes: Seq<SceneEntry>, scene: SceneEntry)
    requires
        scenes.len() < usize::MAX,
    ensures
        scene_route_map(seq![]) == Map::<Seq<char>, usize>::empty(),
        scene_route_map(scenes.push(scene)) == scene_route_map(scenes).insert(
            scene.hc_id@,
            scenes.len() as usize,
        ),
{
    assert(scenes.push(scene).drop_last() =~= scenes);
}

/// The LED state of a scene is what was last reported of the component a hundred past its phantom
/// button on its main repeater, and that of a button what was last reported of the component eighty
/// past it.
pub proof fn led_states_are_looked_up(b: BridgeView, hc_id: Seq<char>, button: u32)
    ensures
        forall|c: Component|
            #![trigger led_at(b, c)]
            led_at(b, c) == (if b.leds.contains_key(c) {
                Some(b.leds[c])
            } else {
                None
            }),
        b.scene_routes.contains_key(hc_id) && b.scenes[b.scene_routes[hc_id] as
            int].config.button_component <= 4294967195 ==> scene_led_state(b, hc_id) == led_at(
            b,
            (
                b.scenes[b.scene_routes[hc_id] as int].config.main_repeater_id,
                (b.scenes[b.scene_routes[hc_id] as int].config.button_component + 100) as u32,
            ),
        ),
        !(b.scene_routes.contains_key(hc_id) && b.scenes[b.scene_routes[hc_id] as
            int].config.button_component <= 4294967195) ==> scene_led_state(b, hc_id) is None,
        b.routes.contains_key(hc_id) && button <= 4294967215 ==> button_led_state(b, hc_id, button)
            == led_at(b, (b.routes[hc_id], (button + 80) as u32)),
        !(b.routes.contains_key(hc_id) && button <= 4294967215) ==> button_led_state(
            b,
            hc_id,
            button,
        ) is None,
{
}

/// What is asked about one device: the level of a dimmer, a switch or a shade, the state of an
/// occupancy group, and nothing of a Pico remote or a receiver.
pub proof fn devices_are_asked_what_they_know(dev: DeviceEntry)
    ensures
        ({
            let kind = dev.config.kind;
            let integration_id = dev.config.integration_id;
            &&& kind is Dimmer || kind is Switch || kind is Shade ==> device_queries(dev.config)
                == seq![LipCommand::QueryOutput { integration_id }]
            &&& kind is OccupancyGroup ==> device_queries(dev.config) == seq![
                LipCommand::QueryGroup { integration_id },
            ]
            &&& kind is Pico || kind is Vcrx ==> device_queries(dev.config).len() == 0
            &&& kind is Keypad ==> device_queries(dev.config) == led_queries(
                integration_id,
                dev.config.buttons@,
            )
        }),
{
}

/// A keypad is asked about the LED of each of its buttons in turn, eighty past the button; buttons
/// whose LED would stand past the last component are left out.
pub proof fn keypads_are_asked_about_each_led(id: u32, buttons: Seq<u32>, button: u32)
    ensures
        led_queries(id, seq![]).len() == 0,
        button <= 4294967215 ==> led_queries(id, buttons.push(button)) == led_queries(
            id,
            buttons,
        ).push(LipCommand::QueryLed { integration_id: id, component: (button + 80) as u32 }),
        button > 4294967215 ==> led_queries(id, buttons.push(button)) == led_queries(id, buttons),
{
    assert(buttons.push(button).drop_last() =~= buttons);
}

/// Queries about all devices are those of every device exactly once, in some order.
pub proof fn all_devices_are_asked_once(
    devices: Map<u32, DeviceEntry>,
    queries: Seq<LipCommand>,
)
    requires
        queries_all(devices, queries),
    ensures
        exists|order: Seq<u32>|
            {
                &&& order.no_duplicates()
                &&& forall|id: u32| #[trigger] order.contains(id) <==> devices.contains_key(id)
                &&& queries == #[trigger] queries_in_order(devices, order)
            },
{
    let order = choose|order: Seq<u32>|
        visits_all(devices, order) && queries == #[trigger] queries_in_order(devices, order);
    assert forall|id: u32| #[trigger] order.contains(id) <==> devices.contains_key(id) by {}
}

/// On connecting, every configured device is visited exactly once, in some order, and each is asked
/// what it is asked and nothing besides.
pub proof fn connecting_asks_every_device_once(b: BridgeView, actions: Seq<ActionView>)
    requires
        event_leads_to(b, Event::Connected, actions),
    ensures
        exists|order: Seq<u32>|
            {
                &&& order.no_duplicates()
                &&& forall|id: u32| #[trigger] order.contains(id) <==> b.devices.contains_key(id)
                &&& actions.len() == #[trigger] queries_in_order(b.devices, order).len()
                &&& forall|i: int|
                    0 <= i < actions.len() ==> #[trigger] actions[i] == ActionView::Send(
                        queries_in_order(b.devices, order)[i],
                    )
            },
{
    let asked = choose|queries: Seq<LipCommand>| #[trigger]
        queries_all(b.devices, queries) && actions == sends(queries);
    let order = choose|order: Seq<u32>|
        visits_all(b.devices, order) && asked == #[trigger] queries_in_order(b.devices, order);
    assert forall|id: u32| #[trigger] order.contains(id) <==> b.devices.contains_key(id) by {}
    assert(asked == queries_in_order(b.devices, order));
}

/// Queries go device by device: those of each further device follow those of the devices before it.
pub proof fn queries_go_device_by_device(
    devices: Map<u32, DeviceEntry>,
    order: Seq<u32>,
    id: u32,
)
    ensures
        queries_in_order(devices, seq![]).len() == 0,
        queries_in_order(devices, order.push(id)) == queries_in_order(devices, order)
            + device_queries(devices[id].config),
{
    assert(order.push(id).drop_last() =~= order);
}

/// Buttons are held down for a tenth of a second, keepalives come once a minute, no wait but the
/// first is longer than a minute, and starting up is tried three times, a minute apart.
pub proof fn times_are_fixed()
    ensures
        SCENE_PAUSE_MS == 100,
        KEEPALIVE_SECS == 60,
        MAX_BACKOFF_SECS == 60,
        MAX_ATTEMPTS == 3,
        RETRY_DELAY_SECS == 60,
{
}

} // verus!
