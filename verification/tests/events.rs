//! The bridge, event by event.

use hc_lutron::action::Action;
use hc_lutron::bridge::{Bridge, Event, Next};
use hc_lutron::config::{DeviceConfig, DeviceKind, LutronConfig, SceneConfig};
use hc_lutron::devices::{DeviceEntry, SceneEntry};
use hc_lutron::number::Number;
use hc_lutron::patch::{Attribute, PatchValue};
use hc_lutron::protocol::{
    DeviceAction, Level, LipCommand, LipMessage, OccupancyState, OutputAction,
};

fn num(x: f64) -> Number {
    Number { bits: x.to_bits() }
}

fn device(integration_id: u32, kind: DeviceKind) -> DeviceEntry {
    DeviceEntry::new(DeviceConfig {
        integration_id,
        name: format!("device {integration_id}"),
        kind,
        area: None,
        fade_secs: None,
        invert_position: false,
        buttons: vec![1, 3],
        ccis: vec![30],
    })
}

fn scene(name: &str, button_component: u32) -> SceneEntry {
    SceneEntry::new(SceneConfig { name: name.to_string(), main_repeater_id: 1, button_component })
}

fn settings(reconnect_delay_secs: u64) -> LutronConfig {
    LutronConfig {
        host: "repeater".to_string(),
        port: 23,
        username: "lutron".to_string(),
        password: "SECRET-REDACTED".to_string(),
        default_fade_secs: num(1.5),
        hold_threshold_ms: 500,
        reconnect_delay_secs,
    }
}

fn bridge() -> Bridge {
    Bridge::new(
        vec![
            device(2, DeviceKind::Dimmer),
            device(3, DeviceKind::Keypad),
            device(4, DeviceKind::OccupancyGroup),
            device(5, DeviceKind::Pico),
            device(6, DeviceKind::Vcrx),
            device(7, DeviceKind::Switch),
        ],
        vec![scene("Good Night", 4), scene("Dinner", 5)],
        settings(5),
    )
}

fn show_patch(patch: &[Attribute]) -> String {
    patch
        .iter()
        .map(|a| match &a.value {
            PatchValue::Flag(b) => format!("{}={}", a.name, b),
            PatchValue::Text(s) => format!("{}={}", a.name, s),
            PatchValue::Integer(n) => format!("{}={}", a.name, n),
            PatchValue::Tenths(x) => format!("{}~{}", a.name, f64::from_bits(x.bits)),
            PatchValue::InvertedTenths(x) => format!("{}~100-{}", a.name, f64::from_bits(x.bits)),
            PatchValue::Byte(x) => format!("{}#{}", a.name, f64::from_bits(x.bits)),
        })
        .collect::<Vec<_>>()
        .join(",")
}

fn show(action: &Action) -> String {
    match action {
        Action::PublishState { hc_id, patch } => format!("state {hc_id} {}", show_patch(patch)),
        Action::PublishPartial { hc_id, patch } => {
            format!("partial {hc_id} {}", show_patch(patch))
        }
        Action::StartHoldTimer { keypad_id, button, after_ms } => {
            format!("start {keypad_id}/{button} {after_ms}")
        }
        Action::CancelHoldTimer { keypad_id, button } => format!("cancel {keypad_id}/{button}"),
        Action::CancelAllHoldTimers => "cancel all".to_string(),
        Action::Send(LipCommand::SetLevel { integration_id, level, fade_secs }) => {
            let level = match level {
                Level::Exact(x) => format!("{}", f64::from_bits(x.bits)),
                Level::FromByte(x) => format!("{}/255", f64::from_bits(x.bits)),
                Level::Inverted(x) => format!("100-{}", f64::from_bits(x.bits)),
            };
            format!("level {integration_id} {level} {}", f64::from_bits(fade_secs.bits))
        }
        Action::Send(command) => format!("{command:?}"),
        Action::Pause { millis } => format!("pause {millis}"),
        Action::SendKeepalive => "keepalive".to_string(),
    }
}

fn take(bridge: &mut Bridge, event: Event) -> Vec<String> {
    let step = bridge.step(event);
    assert_eq!(step.next, Next::Continue);
    step.actions.iter().map(show).collect()
}

fn button(integration_id: u32, component: u32, action: DeviceAction) -> Event {
    Event::Message(LipMessage::Device { integration_id, component, action })
}

fn command(hc_id: &str, payload: &str) -> Event {
    Event::Command {
        hc_id: hc_id.to_string(),
        payload: serde_json::from_str(payload).unwrap(),
    }
}

#[test]
fn connecting_queries_everything_once() {
    let mut b = bridge();
    let mut queries = take(&mut b, Event::Connected);
    queries.sort();
    assert_eq!(
        queries,
        [
            "QueryGroup { integration_id: 4 }",
            "QueryLed { integration_id: 3, component: 81 }",
            "QueryLed { integration_id: 3, component: 83 }",
            "QueryOutput { integration_id: 2 }",
            "QueryOutput { integration_id: 7 }",
        ]
    );
}

#[test]
fn output_levels_are_published() {
    let mut b = bridge();
    let output = |integration_id: u32, action: OutputAction| {
        Event::Message(LipMessage::Output { integration_id, action, value: num(25.0) })
    };
    assert_eq!(
        take(&mut b, output(2, OutputAction::ZoneLevel)),
        ["state lutron_2 on=true,brightness_pct~25,brightness#25"]
    );
    assert!(take(&mut b, output(2, OutputAction::Other(29))).is_empty());
    assert!(take(&mut b, output(3, OutputAction::ZoneLevel)).is_empty());
    assert!(take(&mut b, output(99, OutputAction::ZoneLevel)).is_empty());
}

#[test]
fn occupancy_is_published() {
    let mut b = bridge();
    let group = |integration_id: u32, state: OccupancyState| {
        Event::Message(LipMessage::Group { integration_id, state })
    };
    assert_eq!(
        take(&mut b, group(4, OccupancyState::Occupied)),
        ["state lutron_4 occupied=true,occupancy=true"]
    );
    assert_eq!(
        take(&mut b, group(4, OccupancyState::Unoccupied)),
        ["state lutron_4 occupied=false,occupancy=false"]
    );
    assert_eq!(
        take(&mut b, group(4, OccupancyState::Unknown)),
        ["state lutron_4 occupied=false,occupancy=false"]
    );
    assert!(take(&mut b, group(99, OccupancyState::Occupied)).is_empty());
}

#[test]
fn other_messages_do_nothing() {
    let mut b = bridge();
    assert!(take(&mut b, Event::Message(LipMessage::Prompt)).is_empty());
    assert!(take(&mut b, Event::Message(LipMessage::Error("4".to_string()))).is_empty());
    assert!(take(&mut b, Event::Message(LipMessage::Unknown("?".to_string()))).is_empty());
}

#[test]
fn short_press() {
    let mut b = bridge();
    assert_eq!(
        take(&mut b, button(3, 1, DeviceAction::Press)),
        ["partial lutron_3 button_1=press", "start 3/1 500"]
    );
    assert_eq!(
        take(&mut b, button(3, 1, DeviceAction::Release)),
        ["cancel 3/1", "partial lutron_3 button_1=release"]
    );
    assert_eq!(
        take(&mut b, button(3, 1, DeviceAction::Release)),
        ["partial lutron_3 button_1=release"]
    );
}

#[test]
fn long_press() {
    let mut b = bridge();
    take(&mut b, button(3, 2, DeviceAction::Press));
    assert_eq!(
        take(&mut b, Event::HoldFired { keypad_id: 3, button: 2 }),
        ["cancel 3/2", "partial lutron_3 button_2=hold"]
    );
    assert_eq!(
        take(&mut b, button(3, 2, DeviceAction::Release)),
        ["partial lutron_3 button_2=release"]
    );
    assert!(take(&mut b, Event::HoldFired { keypad_id: 99, button: 2 }).is_empty());
}

#[test]
fn double_click_stops_the_timer() {
    let mut b = bridge();
    take(&mut b, button(3, 1, DeviceAction::Press));
    take(&mut b, button(3, 2, DeviceAction::Press));
    assert_eq!(
        take(&mut b, button(3, 1, DeviceAction::DoubleClick)),
        ["cancel 3/1", "partial lutron_3 button_1=double_click"]
    );
    assert_eq!(
        take(&mut b, button(3, 2, DeviceAction::Release)),
        ["cancel 3/2", "partial lutron_3 button_2=release"]
    );
}

#[test]
fn who_has_buttons() {
    let mut b = bridge();
    assert_eq!(
        take(&mut b, button(5, 4, DeviceAction::Press)),
        ["partial lutron_5 button_4=press", "start 5/4 500"]
    );
    assert_eq!(
        take(&mut b, button(6, 4, DeviceAction::Press)),
        ["partial lutron_6 button_4=press", "start 6/4 500"]
    );
    assert!(take(&mut b, button(6, 30, DeviceAction::Press)).is_empty());
    assert!(take(&mut b, button(2, 1, DeviceAction::Press)).is_empty());
    assert!(take(&mut b, button(99, 1, DeviceAction::Press)).is_empty());
}

#[test]
fn device_commands_are_routed() {
    let mut b = bridge();
    assert_eq!(
        take(&mut b, command("lutron_2", r#"{"brightness_pct": 30}"#)),
        ["level 2 30 1.5"]
    );
    assert_eq!(take(&mut b, command("lutron_7", r#"{"on": true}"#)), ["level 7 100 0"]);
    assert_eq!(
        take(&mut b, command("lutron_3", r#"{"set_led": {"button": 1, "state": 2}}"#)),
        ["DeviceLed { integration_id: 3, component: 81, state: 2 }"]
    );
    assert!(take(&mut b, command("lutron_5", r#"{"on": true}"#)).is_empty());
    assert!(take(&mut b, command("lutron_99", r#"{"on": true}"#)).is_empty());
}

#[test]
fn scenes_are_activated() {
    let mut b = bridge();
    assert_eq!(
        take(&mut b, command("lutron_scene_dinner", r#"{"activate": true}"#)),
        [
            "DeviceAction { integration_id: 1, component: 5, action: 3 }",
            "pause 100",
            "DeviceAction { integration_id: 1, component: 5, action: 4 }",
        ]
    );
    assert!(take(&mut b, command("lutron_scene_dinner", r#"{"activate": false}"#)).is_empty());
    assert!(take(&mut b, command("lutron_scene_dinner", r#"{"on": true}"#)).is_empty());
    assert!(take(&mut b, command("lutron_scene_lunch", r#"{"activate": true}"#)).is_empty());
}

#[test]
fn buttons_are_pressed() {
    let mut b = bridge();
    let press = r#"{"press_button": {"button": 2}}"#;
    for id in [3, 6] {
        assert_eq!(
            take(&mut b, command(&format!("lutron_{id}"), press)),
            [
                format!("DeviceAction {{ integration_id: {id}, component: 2, action: 3 }}"),
                "pause 100".to_string(),
                format!("DeviceAction {{ integration_id: {id}, component: 2, action: 4 }}"),
            ]
        );
    }
    assert!(take(&mut b, command("lutron_5", press)).is_empty());
    assert!(take(&mut b, command("lutron_2", press)).is_empty());
    assert!(take(&mut b, command("lutron_scene_dinner", press)).is_empty());
    for nothing in [
        r#"{"press_button": {"button": 0}}"#, r#"{"press_button": {}}"#, r#"{"press_button": 2}"#,
        r#"{"press_button": {"button": 4294967296}}"#, r#"{"press_button": {"button": "2"}}"#,
    ] {
        assert!(take(&mut b, command("lutron_3", nothing)).is_empty(), "{nothing}");
    }
    assert_eq!(
        take(
            &mut b,
            command(
                "lutron_3",
                r#"{"press_button": {"button": 2}, "set_led": {"button": 1, "state": 1}}"#
            )
        ),
        ["DeviceLed { integration_id: 3, component: 81, state: 1 }"]
    );
    assert_eq!(
        take(
            &mut b,
            command("lutron_3", r#"{"press_button": {"button": 2}, "set_led": {"state": 1}}"#)
        )
        .len(),
        3
    );
}

#[test]
fn the_last_of_equal_ids_counts() {
    let mut b = Bridge::new(
        vec![device(2, DeviceKind::Dimmer), device(2, DeviceKind::Switch)],
        vec![scene("A B", 4), scene("a b", 9)],
        settings(5),
    );
    assert_eq!(take(&mut b, command("lutron_2", r#"{"on": true}"#)), ["level 2 100 0"]);
    assert_eq!(
        take(&mut b, command("lutron_scene_a_b", r#"{"activate": true}"#))[0],
        "DeviceAction { integration_id: 1, component: 9, action: 3 }"
    );
}

#[test]
fn led_states_are_tracked() {
    let mut b = bridge();
    assert_eq!(b.scene_led("lutron_scene_good_night"), None);
    assert_eq!(
        take(&mut b, button(1, 104, DeviceAction::Led(1))),
        ["partial lutron_scene_good_night led=1"]
    );
    assert_eq!(b.scene_led("lutron_scene_good_night"), Some(1));
    assert_eq!(b.scene_led("lutron_scene_dinner"), None);
    assert_eq!(b.scene_led("lutron_2"), None);
    assert_eq!(
        take(&mut b, button(3, 83, DeviceAction::Led(2))),
        ["partial lutron_3 led_3=2"]
    );
    assert_eq!(b.button_led("lutron_3", 3), Some(2));
    assert_eq!(b.button_led("lutron_3", 1), None);
    assert_eq!(b.button_led("lutron_3", 4_294_967_295), None);
    assert_eq!(b.button_led("lutron_99", 3), None);
    take(&mut b, button(3, 83, DeviceAction::Led(0)));
    assert_eq!(b.button_led("lutron_3", 3), Some(0));
    assert_eq!(b.scene_led("lutron_scene_good_night"), Some(1));
}

#[test]
fn led_reports_are_published() {
    let mut b = Bridge::new(
        vec![
            device(1, DeviceKind::Keypad),
            device(5, DeviceKind::Pico),
            device(6, DeviceKind::Vcrx),
            device(7, DeviceKind::Switch),
        ],
        vec![scene("One", 4), scene("Two", 5), scene("Three", 4), scene("Last", u32::MAX)],
        settings(5),
    );
    let led = |id: u32, component: u32, state: u8| button(id, component, DeviceAction::Led(state));
    assert_eq!(
        take(&mut b, led(1, 104, 3)),
        [
            "partial lutron_1 led_24=3",
            "partial lutron_scene_one led=3",
            "partial lutron_scene_three led=3",
        ]
    );
    assert_eq!(take(&mut b, led(1, 4, 1)), ["partial lutron_1 led_component_4=1"]);
    assert_eq!(take(&mut b, led(1, 80, 1)), ["partial lutron_1 led_component_80=1"]);
    assert_eq!(take(&mut b, led(1, 81, 255)), ["partial lutron_1 led_1=255"]);
    // A component number does not wrap around to that of a scene.
    assert_eq!(take(&mut b, led(1, 99, 1)), ["partial lutron_1 led_19=1"]);
    assert!(take(&mut b, led(6, 81, 0)).is_empty());
    assert!(take(&mut b, led(5, 104, 1)).is_empty());
    assert!(take(&mut b, led(7, 104, 1)).is_empty());
    assert!(take(&mut b, led(9, 104, 1)).is_empty());
}

#[test]
fn a_second_press_starts_the_timer_anew() {
    let mut b = bridge();
    take(&mut b, button(3, 1, DeviceAction::Press));
    assert_eq!(
        take(&mut b, button(3, 1, DeviceAction::Press)),
        ["partial lutron_3 button_1=press", "start 3/1 500"]
    );
    assert_eq!(
        take(&mut b, button(3, 2, DeviceAction::Release)),
        ["partial lutron_3 button_2=release"]
    );
    assert_eq!(take(&mut b, button(3, 81, DeviceAction::Led(1))), ["partial lutron_3 led_1=1"]);
    assert_eq!(
        take(&mut b, button(3, 1, DeviceAction::Release)),
        ["cancel 3/1", "partial lutron_3 button_1=release"]
    );
}

#[test]
fn connecting_resets_the_wait() {
    let mut b = bridge();
    let lose = |b: &mut Bridge| b.step(Event::ConnectionLost).next;
    assert_eq!(lose(&mut b), Next::Reconnect { delay_secs: 5 });
    assert_eq!(lose(&mut b), Next::Reconnect { delay_secs: 10 });
    take(&mut b, Event::Connected);
    take(&mut b, Event::KeepaliveDue);
    assert_eq!(lose(&mut b), Next::Reconnect { delay_secs: 5 });
    assert_eq!(lose(&mut b), Next::Reconnect { delay_secs: 10 });
    assert_eq!(lose(&mut b), Next::Reconnect { delay_secs: 20 });
    take(&mut b, Event::Connected);
    assert_eq!(lose(&mut b), Next::Reconnect { delay_secs: 5 });
}

#[test]
fn keepalives_and_shutdown() {
    let mut b = bridge();
    assert_eq!(take(&mut b, Event::KeepaliveDue), ["keepalive"]);
    let step = b.step(Event::HomecoreClosed);
    assert_eq!(step.next, Next::Shutdown);
    assert!(step.actions.is_empty());
}

fn delays(first: u64, count: usize) -> Vec<u64> {
    let mut b = Bridge::new(vec![], vec![], settings(first));
    let mut out = vec![];
    for _ in 0..count {
        match b.step(Event::ConnectionLost).next {
            Next::Reconnect { delay_secs } => out.push(delay_secs),
            other => panic!("{other:?}"),
        }
    }
    out
}

#[test]
fn reconnection_waits_double() {
    assert_eq!(delays(5, 6), [5, 10, 20, 40, 60, 60]);
    assert_eq!(delays(30, 3), [30, 60, 60]);
    assert_eq!(delays(29, 4), [29, 58, 60, 60]);
    assert_eq!(delays(600, 3), [600, 60, 60]);
    assert_eq!(delays(0, 3), [0, 0, 0]);
    assert_eq!(delays(u64::MAX, 2), [u64::MAX, 60]);
}

#[test]
fn lost_connections_stop_all_timers() {
    let mut b = bridge();
    take(&mut b, button(3, 1, DeviceAction::Press));
    let step = b.step(Event::ConnectionLost);
    assert_eq!(step.actions.iter().map(show).collect::<Vec<_>>(), ["cancel all"]);
    assert_eq!(
        take(&mut b, button(3, 1, DeviceAction::Release)),
        ["partial lutron_3 button_1=release"]
    );
    assert_eq!(b.lutron_cfg().host, "repeater");
}
