//! What holds of the bridge over several events.

use crate::action::ActionView;
use crate::bridge::{
    after_device_event, after_event, after_message, button_led_state, command_actions,
    device_actions, device_event_actions, device_map, device_queries, event_next, events_keep_wf,
    initial_state, initial_state_is_wf, is_scene_led, led_at, led_attribute, led_event, led_queries,
    message_actions, next_backoff, queries_all, queries_in_order, route_map, scene_activation,
    scene_led_actions, scene_led_state, scene_route_map, visits_all, BridgeView, Component, Event,
    Next, MAX_BACKOFF_SECS, SCENE_PAUSE_MS,
};
use crate::command::Command;
use crate::config::{scene_hc_id, DeviceKind, LutronConfig};
use crate::devices::{
    device_hc_id, device_ids_are_distinct, devices_and_scenes_are_apart, led_button, low32,
    output_kind, pressable_kind, DeviceEntry, SceneEntry,
};
use crate::protocol::{
    led_component, DeviceAction, LipCommand, LipMessage, ACTION_PRESS, ACTION_RELEASE, LED_OFFSET,
    SCENE_LED_OFFSET,
};
use crate::text::{decimal_digits, decimal_digits_are_digits, decimal_digits_injective};
use vstd::arithmetic::power2::{lemma2_to64, lemma_pow2_unfold, pow2};
use vstd::prelude::*;

verus! {

/// Whether devices carry the HomeCore IDs of their integration IDs.
pub open spec fn devices_named(devices: Seq<DeviceEntry>) -> bool {
    forall|i: int|
        0 <= i < devices.len() ==> (#[trigger] devices[i]).hc_id@ == device_hc_id(
            devices[i].config.integration_id,
        )
}

/// Whether scenes carry the HomeCore IDs of their names.
pub open spec fn scenes_named(scenes: Seq<SceneEntry>) -> bool {
    forall|i: int|
        0 <= i < scenes.len() ==> (#[trigger] scenes[i]).hc_id@ == scene_hc_id(
            scenes[i].config.name@,
        )
}

/// Whether a device is the last of those with its integration ID.
pub open spec fn last_device(devices: Seq<DeviceEntry>, i: int) -> bool {
    &&& 0 <= i < devices.len()
    &&& forall|j: int|
        i < j < devices.len() ==> (#[trigger] devices[j]).config.integration_id
            != devices[i].config.integration_id
}

/// Whether a scene is the last of those with its HomeCore ID.
pub open spec fn last_scene(scenes: Seq<SceneEntry>, i: int) -> bool {
    &&& 0 <= i < scenes.len()
    &&& forall|j: int| i < j < scenes.len() ==> (#[trigger] scenes[j]).hc_id@ != scenes[i].hc_id@
}

/// Whether a state serves exactly these devices and scenes with these settings.
pub open spec fn serves(
    b: BridgeView,
    devices: Seq<DeviceEntry>,
    scenes: Seq<SceneEntry>,
    cfg: LutronConfig,
) -> bool {
    &&& b.devices == device_map(devices)
    &&& b.routes == route_map(devices)
    &&& b.scenes == scenes
    &&& b.scene_routes == scene_route_map(scenes)
    &&& b.lutron_cfg == cfg
}

/// The state after several events.
pub open spec fn after_events(b: BridgeView, events: Seq<Event>) -> BridgeView
    decreases events.len(),
{
    if events.len() == 0 {
        b
    } else {
        after_event(after_events(b, events.drop_last()), events.last())
    }
}

/// Whatever happens to a new bridge, it goes on serving the devices and scenes that it was made
/// for, and stays in a good state.
pub proof fn bridge_keeps_serving(
    devices: Seq<DeviceEntry>,
    scenes: Seq<SceneEntry>,
    cfg: LutronConfig,
    events: Seq<Event>,
)
    requires
        scenes.len() <= usize::MAX,
    ensures
        serves(after_events(initial_state(devices, scenes, cfg), events), devices, scenes, cfg),
        after_events(initial_state(devices, scenes, cfg), events).wf(),
    decreases events.len(),
{
    if events.len() == 0 {
        initial_state_is_wf(devices, scenes, cfg);
    } else {
        bridge_keeps_serving(devices, scenes, cfg, events.drop_last());
        events_keep_wf(
            after_events(initial_state(devices, scenes, cfg), events.drop_last()),
            events.last(),
        );
    }
}

proof fn device_is_found(devices: Seq<DeviceEntry>, i: int)
    requires
        devices_named(devices),
        last_device(devices, i),
    ensures
        device_map(devices).contains_key(devices[i].config.integration_id),
        device_map(devices)[devices[i].config.integration_id] == devices[i],
        route_map(devices).contains_key(devices[i].hc_id@),
        route_map(devices)[devices[i].hc_id@] == devices[i].config.integration_id,
    decreases devices.len(),
{
    let n = devices.len() - 1;
    if i < n {
        let before = devices.drop_last();
        assert forall|j: int| i < j < before.len() implies (
        #[trigger] before[j]).config.integration_id != before[i].config.integration_id by {
            assert(before[j] == devices[j]);
        }
        device_is_found(before, i);
        assert(devices[n].config.integration_id != devices[i].config.integration_id);
        if devices[n].hc_id@ == devices[i].hc_id@ {
            device_ids_are_distinct(
                devices[n].config.integration_id,
                devices[i].config.integration_id,
            );
        }
    }
}

proof fn scene_routes_are_scene_ids(scenes: Seq<SceneEntry>, k: Seq<char>)
    requires
        scene_route_map(scenes).contains_key(k),
    ensures
        exists|j: int| 0 <= j < scenes.len() && (#[trigger] scenes[j]).hc_id@ == k,
    decreases scenes.len(),
{
    if scenes.last().hc_id@ == k {
        assert(scenes[scenes.len() - 1].hc_id@ == k);
    } else {
        scene_routes_are_scene_ids(scenes.drop_last(), k);
        let j = choose|j: int|
            0 <= j < scenes.drop_last().len() && (#[trigger] scenes.drop_last()[j]).hc_id@ == k;
        assert(scenes[j].hc_id@ == k);
    }
}

proof fn scene_is_found(scenes: Seq<SceneEntry>, i: int)
    requires
        scenes.len() <= usize::MAX,
        last_scene(scenes, i),
    ensures
        scene_route_map(scenes).contains_key(scenes[i].hc_id@),
        scene_route_map(scenes)[scenes[i].hc_id@] == i,
    decreases scenes.len(),
{
    if i < scenes.len() - 1 {
        let before = scenes.drop_last();
        assert forall|j: int| i < j < before.len() implies (#[trigger] before[j]).hc_id@
            != before[i].hc_id@ by {
            assert(before[j] == scenes[j]);
        }
        scene_is_found(before, i);
        assert(scenes[scenes.len() - 1].hc_id@ != scenes[i].hc_id@);
    }
}

/// A command to the HomeCore ID of a device reaches that device: the last one configured with its
/// integration ID. No scene stands in the way.
pub proof fn device_commands_arrive(
    b: BridgeView,
    devices: Seq<DeviceEntry>,
    scenes: Seq<SceneEntry>,
    cfg: LutronConfig,
    i: int,
    cmd: Command,
)
    requires
        serves(b, devices, scenes, cfg),
        devices_named(devices),
        scenes_named(scenes),
        last_device(devices, i),
    ensures
        command_actions(b, device_hc_id(devices[i].config.integration_id), cmd)
            == device_actions(devices[i].config, cmd, cfg.default_fade_secs),
{
    let id = devices[i].config.integration_id;
    device_is_found(devices, i);
    if scene_route_map(scenes).contains_key(device_hc_id(id)) {
        scene_routes_are_scene_ids(scenes, device_hc_id(id));
        let j = choose|j: int|
            0 <= j < scenes.len() && (#[trigger] scenes[j]).hc_id@ == device_hc_id(id);
        devices_and_scenes_are_apart(id, scenes[j].config.name@);
    }
}

/// A command to press a button of a keypad or a receiver presses it and, after a pause, releases
/// it, as a scene's phantom button is. An LED request that names a button goes before it.
pub proof fn button_presses_arrive(
    b: BridgeView,
    devices: Seq<DeviceEntry>,
    scenes: Seq<SceneEntry>,
    cfg: LutronConfig,
    i: int,
    cmd: Command,
)
    requires
        serves(b, devices, scenes, cfg),
        devices_named(devices),
        scenes_named(scenes),
        last_device(devices, i),
        pressable_kind(devices[i].config.kind),
        cmd.set_led is Some ==> led_button(cmd.set_led->0) == 0,
        cmd.press_button is Some,
        low32(cmd.press_button->0) > 0,
    ensures
        ({
            let integration_id = devices[i].config.integration_id;
            let component = low32(cmd.press_button->0);
            command_actions(b, device_hc_id(integration_id), cmd) == seq![
                ActionView::Send(
                    LipCommand::DeviceAction { integration_id, component, action: ACTION_PRESS },
                ),
                ActionView::Pause { millis: SCENE_PAUSE_MS },
                ActionView::Send(
                    LipCommand::DeviceAction { integration_id, component, action: ACTION_RELEASE },
                ),
            ]
        }),
{
    device_commands_arrive(b, devices, scenes, cfg, i, cmd);
}

/// A command to the HomeCore ID of a scene presses and releases its phantom button if it says to
/// activate, and does nothing otherwise. Of scenes with one HomeCore ID the last counts.
pub proof fn scene_commands_arrive(
    b: BridgeView,
    devices: Seq<DeviceEntry>,
    scenes: Seq<SceneEntry>,
    cfg: LutronConfig,
    i: int,
    cmd: Command,
)
    requires
        serves(b, devices, scenes, cfg),
        scenes.len() <= usize::MAX,
        last_scene(scenes, i),
    ensures
        command_actions(b, scenes[i].hc_id@, cmd) == (
        if cmd.activate == Some(true) {
            scene_activation(scenes[i])
        } else {
            Seq::<ActionView>::empty()
        }),
{
    scene_is_found(scenes, i);
}

/// A command to a HomeCore ID that is neither a device's nor a scene's does nothing.
pub proof fn unknown_commands_are_ignored(b: BridgeView, hc_id: Seq<char>, cmd: Command)
    requires
        !b.routes.contains_key(hc_id),
        !b.scene_routes.contains_key(hc_id),
    ensures
        command_actions(b, hc_id, cmd) == Seq::<ActionView>::empty(),
{
}

/// Messages about devices that are not configured publish nothing, but for the LEDs of scenes.
pub proof fn unknown_devices_publish_nothing(b: BridgeView, msg: LipMessage)
    requires
        match msg {
            LipMessage::Output { integration_id, .. } => !b.devices.contains_key(integration_id),
            LipMessage::Group { integration_id, .. } => !b.devices.contains_key(integration_id),
            LipMessage::Device { integration_id, component, action } => {
                &&& !b.devices.contains_key(integration_id)
                &&& action is Led ==> forall|i: int|
                    0 <= i < b.scenes.len() ==> !is_scene_led(
                        #[trigger] b.scenes[i],
                        (integration_id, component),
                    )
            },
            _ => true,
        },
    ensures
        message_actions(b, msg) == Seq::<ActionView>::empty(),
{
    if let LipMessage::Device { integration_id, component, action: DeviceAction::Led(state) } = msg {
        other_led_reports_publish_nothing(b, (integration_id, component), state);
    }
}

/// The wait before each reconnection, counted from zero.
pub open spec fn nth_backoff(first: u64, n: nat) -> u64
    decreases n,
{
    if n == 0 {
        first
    } else {
        next_backoff(nth_backoff(first, (n - 1) as nat))
    }
}

/// Each lost connection is followed by the wait that is due, and only then does the wait grow.
pub proof fn each_loss_takes_the_next_wait(b: BridgeView, first: u64, n: nat)
    requires
        b.backoff_secs == nth_backoff(first, n),
    ensures
        event_next(b, Event::ConnectionLost) == (Next::Reconnect {
            delay_secs: nth_backoff(first, n),
        }),
        after_event(b, Event::ConnectionLost).backoff_secs == nth_backoff(first, n + 1),
{
}

/// How many of these events are lost connections.
pub open spec fn losses(events: Seq<Event>) -> nat
    decreases events.len(),
{
    if events.len() == 0 {
        0
    } else {
        losses(events.drop_last()) + if events.last() is ConnectionLost {
            1nat
        } else {
            0
        }
    }
}

/// While no connection is made, each loss takes the next wait, whatever else happens.
pub proof fn losses_in_a_row_take_the_waits_in_turn(
    b: BridgeView,
    first: u64,
    n: nat,
    events: Seq<Event>,
)
    requires
        b.backoff_secs == nth_backoff(first, n),
        forall|i: int| 0 <= i < events.len() ==> !(#[trigger] events[i] is Connected),
    ensures
        after_events(b, events).backoff_secs == nth_backoff(first, n + losses(events)),
        event_next(after_events(b, events), Event::ConnectionLost) == (Next::Reconnect {
            delay_secs: nth_backoff(first, n + losses(events)),
        }),
    decreases events.len(),
{
    if events.len() > 0 {
        let before = events.drop_last();
        assert forall|i: int| 0 <= i < before.len() implies !(#[trigger] before[i] is Connected) by {
            assert(before[i] == events[i]);
        }
        assert(!(events[events.len() - 1] is Connected));
        losses_in_a_row_take_the_waits_in_turn(b, first, n, before);
        each_loss_takes_the_next_wait(after_events(b, before), first, n + losses(before));
    }
}

proof fn settings_stay(b: BridgeView, events: Seq<Event>)
    ensures
        after_events(b, events).lutron_cfg == b.lutron_cfg,
    decreases events.len(),
{
    if events.len() > 0 {
        settings_stay(b, events.drop_last());
    }
}

/// A connection that was made brings the wait back to the configured one: however many losses came
/// before it, the next loss is followed by the configured delay, and further losses by the waits
/// that follow it in turn.
pub proof fn connecting_resets_the_wait(b: BridgeView, earlier: Seq<Event>, later: Seq<Event>)
    requires
        forall|i: int| 0 <= i < later.len() ==> !(#[trigger] later[i] is Connected),
    ensures
        ({
            let first = b.lutron_cfg.reconnect_delay_secs;
            let connected = after_event(after_events(b, earlier), Event::Connected);
            &&& event_next(connected, Event::ConnectionLost) == (Next::Reconnect {
                delay_secs: first,
            })
            &&& event_next(after_events(connected, later), Event::ConnectionLost) == (
            Next::Reconnect { delay_secs: nth_backoff(first, losses(later)) })
        }),
{
    settings_stay(b, earlier);
    let connected = after_event(after_events(b, earlier), Event::Connected);
    let first = b.lutron_cfg.reconnect_delay_secs;
    assert(nth_backoff(first, 0) == first);
    losses_in_a_row_take_the_waits_in_turn(connected, first, 0, later);
}

/// The waits double: the n-th is the first times two to the n, but after the first never longer
/// than the longest.
pub proof fn backoff_is_exponential(first: u64, n: nat)
    ensures
        n == 0 ==> nth_backoff(first, n) == first,
        n > 0 ==> nth_backoff(first, n) == if first * pow2(n) < MAX_BACKOFF_SECS {
            first * pow2(n)
        } else {
            MAX_BACKOFF_SECS as int
        },
    decreases n,
{
    if n > 0 {
        let m = (n - 1) as nat;
        backoff_is_exponential(first, m);
        lemma_pow2_unfold(n);
        lemma2_to64();
        let p = pow2(m) as int;
        assert(first * pow2(n) == 2 * (first * p)) by (nonlinear_arith)
            requires
                pow2(n) == 2 * p,
        ;
        if m == 0 {
            assert(first * p == first) by (nonlinear_arith)
                requires
                    p == 1,
            ;
        }
    }
}

/// A reported LED state is what is remembered of that LED until its next report; reports of other
/// LEDs and all other messages leave it alone.
pub proof fn led_reports_are_remembered(b: BridgeView, c: Component, state: u8, msg: LipMessage)
    requires
        msg matches LipMessage::Device { integration_id, component, action } ==> (
        integration_id,
        component,
    ) != c || !(action is Led),
    ensures
        led_at(after_device_event(b, c, DeviceAction::Led(state)), c) == Some(state),
        led_at(after_message(b, msg), c) == led_at(b, c),
{
}

/// The LED of a scene is tracked: a report of the component a hundred past its phantom button, on
/// its main repeater, is its LED state.
pub proof fn scene_leds_are_tracked(b: BridgeView, hc_id: Seq<char>, state: u8)
    requires
        b.wf(),
        b.scene_routes.contains_key(hc_id),
        b.scenes[b.scene_routes[hc_id] as int].config.button_component + SCENE_LED_OFFSET
            <= u32::MAX,
    ensures
        ({
            let config = b.scenes[b.scene_routes[hc_id] as int].config;
            let c = (
                config.main_repeater_id,
                (config.button_component + SCENE_LED_OFFSET) as u32,
            );
            scene_led_state(after_device_event(b, c, DeviceAction::Led(state)), hc_id) == Some(
                state,
            )
        }),
{
}

/// The LED of a keypad button is tracked: a report of the component eighty past the button is its
/// LED state.
pub proof fn button_leds_are_tracked(b: BridgeView, hc_id: Seq<char>, button: u32, state: u8)
    requires
        b.routes.contains_key(hc_id),
        button + LED_OFFSET <= u32::MAX,
    ensures
        button_led_state(
            after_device_event(
                b,
                (b.routes[hc_id], (button + LED_OFFSET) as u32),
                DeviceAction::Led(state),
            ),
            hc_id,
            button,
        ) == Some(state),
{
}

/// The LED state of a keypad can be read: a report of any of its LEDs is published under its
/// HomeCore ID, before anything else.
pub proof fn keypad_led_reports_are_published(b: BridgeView, c: Component, state: u8)
    requires
        b.devices.contains_key(c.0),
        b.devices[c.0].config.kind == DeviceKind::Keypad,
    ensures
        device_event_actions(b, c, DeviceAction::Led(state)).len() > 0,
        device_event_actions(b, c, DeviceAction::Led(state))[0] == led_event(
            b.devices[c.0].hc_id@,
            led_attribute(c.1),
            state,
        ),
{
}

/// The LED state of a scene can be read: a report of the component a hundred past its phantom
/// button is published under its HomeCore ID.
pub proof fn scene_led_reports_are_published(b: BridgeView, c: Component, state: u8, i: int)
    requires
        0 <= i < b.scenes.len(),
        is_scene_led(b.scenes[i], c),
    ensures
        device_event_actions(b, c, DeviceAction::Led(state)).contains(
            led_event(b.scenes[i].hc_id@, "led"@, state),
        ),
{
    broadcast use vstd::seq_lib::group_filter_ensures;

    let is_led = |scene: SceneEntry| is_scene_led(scene, c);
    let found = b.scenes.filter(is_led);
    assert(is_led(b.scenes[i]));
    assert(found.contains(b.scenes[i]));
    let k = found.index_of(b.scenes[i]);
    let published = scene_led_actions(b.scenes, c, state);
    let all = device_event_actions(b, c, DeviceAction::Led(state));
    assert(published[k] == led_event(b.scenes[i].hc_id@, "led"@, state));
    assert(all[all.len() - published.len() + k] == published[k]);
}

/// A report of an LED is published under nothing else: neither under another device, nor under a
/// scene of another button.
pub proof fn led_reports_are_published_nowhere_else(
    b: BridgeView,
    c: Component,
    state: u8,
    action: ActionView,
)
    requires
        device_event_actions(b, c, DeviceAction::Led(state)).contains(action),
    ensures
        (b.devices.contains_key(c.0) && b.devices[c.0].config.kind == DeviceKind::Keypad && action
            == led_event(b.devices[c.0].hc_id@, led_attribute(c.1), state)) || exists|i: int|
            0 <= i < b.scenes.len() && is_scene_led(#[trigger] b.scenes[i], c) && action
                == led_event(b.scenes[i].hc_id@, "led"@, state),
{
    broadcast use vstd::seq_lib::group_filter_ensures;

    let is_led = |scene: SceneEntry| is_scene_led(scene, c);
    let found = b.scenes.filter(is_led);
    let published = scene_led_actions(b.scenes, c, state);
    let all = device_event_actions(b, c, DeviceAction::Led(state));
    let k = all.index_of(action);
    let before = all.len() - published.len();
    if k >= before {
        assert(all[k] == published[k - before]);
        let scene = found[k - before];
        assert(is_led(scene));
        assert(found.contains(scene));
        b.scenes.lemma_filter_contains_rev(is_led, scene);
        let i = b.scenes.index_of(scene);
        assert(is_scene_led(b.scenes[i], c));
    }
}

/// A report of a component that is no LED of a keypad or a scene is not published.
pub proof fn other_led_reports_publish_nothing(b: BridgeView, c: Component, state: u8)
    requires
        b.devices.contains_key(c.0) ==> b.devices[c.0].config.kind != DeviceKind::Keypad,
        forall|i: int| 0 <= i < b.scenes.len() ==> !is_scene_led(#[trigger] b.scenes[i], c),
    ensures
        device_event_actions(b, c, DeviceAction::Led(state)) == Seq::<ActionView>::empty(),
{
    let all = device_event_actions(b, c, DeviceAction::Led(state));
    if all.len() > 0 {
        assert(all.contains(all[0]));
        led_reports_are_published_nowhere_else(b, c, state, all[0]);
    }
}

/// What is set as the LED of a button is read as the LED of that button, and different LEDs of a
/// device are published under different attributes.
pub proof fn led_attributes_name_their_leds(button: u32, m: u32, n: u32)
    ensures
        button > 0 && led_component(button) is Some ==> led_attribute(led_component(button)->0)
            == "led_"@ + decimal_digits(button as nat),
        led_attribute(m) == led_attribute(n) ==> m == n,
{
    reveal_strlit("led_");
    reveal_strlit("led_component_");
    if led_attribute(m) == led_attribute(n) {
        let of_m = decimal_digits(
            if m > LED_OFFSET {
                (m - LED_OFFSET) as nat
            } else {
                m as nat
            },
        );
        let of_n = decimal_digits(
            if n > LED_OFFSET {
                (n - LED_OFFSET) as nat
            } else {
                n as nat
            },
        );
        if (m > LED_OFFSET) == (n > LED_OFFSET) {
            let prefix: int = if m > LED_OFFSET {
                4
            } else {
                14
            };
            assert(led_attribute(m).skip(prefix) =~= of_m);
            assert(led_attribute(n).skip(prefix) =~= of_n);
            if m > LED_OFFSET {
                decimal_digits_injective((m - LED_OFFSET) as nat, (n - LED_OFFSET) as nat);
            } else {
                decimal_digits_injective(m as nat, n as nat);
            }
        } else {
            let (button_led, other) = if m > LED_OFFSET {
                (m, n)
            } else {
                (n, m)
            };
            let digits = decimal_digits((button_led - LED_OFFSET) as nat);
            decimal_digits_are_digits((button_led - LED_OFFSET) as nat);
            assert(led_attribute(button_led)[4] == digits[0]);
            assert(led_attribute(other)[4] == 'c');
        }
    }
}

proof fn led_queries_ask_for_leds(id: u32, buttons: Seq<u32>, x: LipCommand)
    ensures
        led_queries(id, buttons).contains(x) <==> (x matches LipCommand::QueryLed {
            integration_id,
            component,
        } && integration_id == id && exists|i: int|
            0 <= i < buttons.len() && #[trigger] led_component(buttons[i]) == Some(component)),
    decreases buttons.len(),
{
    if buttons.len() > 0 {
        let before = buttons.drop_last();
        led_queries_ask_for_leds(id, before, x);
        let earlier = led_queries(id, before);
        let all = led_queries(id, buttons);
        if all.contains(x) {
            let k = all.index_of(x);
            if k < earlier.len() {
                assert(earlier[k] == x);
                let component = x->QueryLed_component;
                let i = choose|i: int|
                    0 <= i < before.len() && #[trigger] led_component(before[i]) == Some(component);
                assert(led_component(buttons[i]) == Some(component));
            } else {
                assert(led_component(buttons[buttons.len() - 1]) is Some);
            }
        }
        if x matches LipCommand::QueryLed { integration_id, component } && integration_id == id
            && exists|i: int|
            0 <= i < buttons.len() && #[trigger] led_component(buttons[i]) == Some(component) {
            let component = x->QueryLed_component;
            let i = choose|i: int|
                0 <= i < buttons.len() && #[trigger] led_component(buttons[i]) == Some(component);
            if i < before.len() {
                assert(led_component(before[i]) == Some(component));
                let k = earlier.index_of(x);
                assert(all[k] == x);
            } else {
                assert(all[all.len() - 1] == x);
            }
        }
    }
}

proof fn query_counts(devices: Map<u32, DeviceEntry>, order: Seq<u32>, id: u32)
    requires
        order.no_duplicates(),
        forall|k: u32| #[trigger] devices.contains_key(k) ==> devices[k].config.integration_id == k,
        forall|i: int| 0 <= i < order.len() ==> devices.contains_key(#[trigger] order[i]),
    ensures
        ({
            let asked = queries_in_order(devices, order).to_multiset();
            let kind = devices[id].config.kind;
            &&& asked.count(LipCommand::QueryOutput { integration_id: id }) == if order.contains(id)
                && output_kind(kind) {
                1nat
            } else {
                0
            }
            &&& asked.count(LipCommand::QueryGroup { integration_id: id }) == if order.contains(id)
                && kind == DeviceKind::OccupancyGroup {
                1nat
            } else {
                0
            }
        }),
    decreases order.len(),
{
    broadcast use vstd::seq_lib::group_to_multiset_ensures;

    let output = LipCommand::QueryOutput { integration_id: id };
    let group = LipCommand::QueryGroup { integration_id: id };
    if order.len() == 0 {
        assert(!queries_in_order(devices, order).contains(output));
        assert(!queries_in_order(devices, order).contains(group));
    } else {
        let before = order.drop_last();
        let last = order.last();
        assert(order[order.len() - 1] == last);
        assert forall|i: int| 0 <= i < before.len() implies devices.contains_key(
            #[trigger] before[i],
        ) by {
            assert(before[i] == order[i]);
        }
        query_counts(devices, before, id);
        let config = devices[last].config;
        let asked = device_queries(config);
        vstd::seq_lib::lemma_multiset_commutative(queries_in_order(devices, before), asked);
        assert(devices.contains_key(last));
        led_queries_ask_for_leds(config.integration_id, config.buttons@, output);
        led_queries_ask_for_leds(config.integration_id, config.buttons@, group);
        if output_kind(config.kind) || config.kind == DeviceKind::OccupancyGroup {
            let only = asked[0];
            assert(asked =~= Seq::<LipCommand>::empty().push(only));
            assert(asked.to_multiset() =~= Seq::<LipCommand>::empty().to_multiset().insert(only));
            assert(!Seq::<LipCommand>::empty().contains(output));
            assert(!Seq::<LipCommand>::empty().contains(group));
        } else {
            assert(!asked.contains(output));
            assert(!asked.contains(group));
        }
        if before.contains(id) {
            let i = before.index_of(id);
            assert(order[i] == id);
        }
        if order.contains(id) && id != last {
            let i = order.index_of(id);
            assert(before[i] == id);
        }
    }
}

/// On connecting, the level of each output and the state of each occupancy group is asked for
/// exactly once, and of nothing else.
pub proof fn each_device_is_queried_once(b: BridgeView, queries: Seq<LipCommand>, id: u32)
    requires
        b.wf(),
        queries_all(b.devices, queries),
    ensures
        queries.to_multiset().count(LipCommand::QueryOutput { integration_id: id }) == if
            b.devices.contains_key(id) && output_kind(b.devices[id].config.kind) {
            1nat
        } else {
            0
        },
        queries.to_multiset().count(LipCommand::QueryGroup { integration_id: id }) == if
            b.devices.contains_key(id) && b.devices[id].config.kind == DeviceKind::OccupancyGroup {
            1nat
        } else {
            0
        },
{
    let order = choose|order: Seq<u32>|
        visits_all(b.devices, order) && queries == #[trigger] queries_in_order(b.devices, order);
    assert forall|i: int| 0 <= i < order.len() implies b.devices.contains_key(
        #[trigger] order[i],
    ) by {
        assert(order.contains(order[i]));
    }
    query_counts(b.devices, order, id);
    assert(order.contains(id) <==> b.devices.contains_key(id));
}

proof fn queries_come_from_devices(
    devices: Map<u32, DeviceEntry>,
    order: Seq<u32>,
    x: LipCommand,
)
    ensures
        queries_in_order(devices, order).contains(x) <==> exists|i: int|
            0 <= i < order.len() && device_queries(
                devices[#[trigger] order[i]].config,
            ).contains(x),
    decreases order.len(),
{
    if order.len() > 0 {
        let before = order.drop_last();
        let earlier = queries_in_order(devices, before);
        let asked = device_queries(devices[order.last()].config);
        let all = queries_in_order(devices, order);
        queries_come_from_devices(devices, before, x);
        if all.contains(x) {
            let k = all.index_of(x);
            if k < earlier.len() {
                assert(earlier[k] == x);
                let i = choose|i: int|
                    0 <= i < before.len() && device_queries(
                        devices[#[trigger] before[i]].config,
                    ).contains(x);
                assert(order[i] == before[i]);
            } else {
                assert(asked[k - earlier.len()] == x);
                assert(order[order.len() - 1] == order.last());
            }
        }
        if exists|i: int|
            0 <= i < order.len() && device_queries(devices[#[trigger] order[i]].config).contains(x) {
            let i = choose|i: int|
                0 <= i < order.len() && device_queries(
                    devices[#[trigger] order[i]].config,
                ).contains(x);
            if i < before.len() {
                assert(before[i] == order[i]);
                let k = earlier.index_of(x);
                assert(all[k] == x);
            } else {
                let k = asked.index_of(x);
                assert(all[earlier.len() + k] == x);
            }
        }
    }
}

/// On connecting, the LED state of each configured button of each keypad is asked for, and of no
/// other component.
pub proof fn keypad_leds_are_queried(
    b: BridgeView,
    queries: Seq<LipCommand>,
    id: u32,
    component: u32,
)
    requires
        b.wf(),
        queries_all(b.devices, queries),
    ensures
        queries.contains(LipCommand::QueryLed { integration_id: id, component }) <==> (
        b.devices.contains_key(id) && b.devices[id].config.kind == DeviceKind::Keypad
            && exists|i: int|
            0 <= i < b.devices[id].config.buttons@.len() && #[trigger] led_component(
                b.devices[id].config.buttons@[i],
            ) == Some(component)),
{
    let x = LipCommand::QueryLed { integration_id: id, component };
    let order = choose|order: Seq<u32>|
        visits_all(b.devices, order) && queries == #[trigger] queries_in_order(b.devices, order);
    queries_come_from_devices(b.devices, order, x);
    assert(order.contains(id) <==> b.devices.contains_key(id));
    if queries.contains(x) {
        let i = choose|i: int|
            0 <= i < order.len() && device_queries(
                b.devices[#[trigger] order[i]].config,
            ).contains(x);
        assert(order.contains(order[i]));
        assert(b.devices.contains_key(order[i]));
        let config = b.devices[order[i]].config;
        led_queries_ask_for_leds(config.integration_id, config.buttons@, x);
    }
    if b.devices.contains_key(id) && b.devices[id].config.kind == DeviceKind::Keypad {
        let config = b.devices[id].config;
        let i = order.index_of(id);
        assert(order[i] == id);
        led_queries_ask_for_leds(config.integration_id, config.buttons@, x);
    }
}

} // verus!
