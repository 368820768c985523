//! Devices: identities, states and commands.

use hc_lutron::config::{
    default_broker_host, default_broker_port, default_fade_secs, default_hold_threshold_ms,
    default_lip_port, default_plugin_id, default_reconnect_delay_secs, default_username,
    DeviceConfig, DeviceKind, SceneConfig, TimeclockConfig,
};
use hc_lutron::devices::{DeviceEntry, SceneEntry, TimeclockEntry};
use hc_lutron::number::Number;
use hc_lutron::patch::{Attribute, PatchValue};
use hc_lutron::protocol::{led_component_for_button, Level, LipCommand};

const KINDS: [DeviceKind; 7] = [
    DeviceKind::Dimmer,
    DeviceKind::Switch,
    DeviceKind::Shade,
    DeviceKind::Keypad,
    DeviceKind::Pico,
    DeviceKind::OccupancyGroup,
    DeviceKind::Vcrx,
];

fn num(x: f64) -> Number {
    Number { bits: x.to_bits() }
}

fn entry(kind: DeviceKind) -> DeviceEntry {
    DeviceEntry::new(DeviceConfig {
        integration_id: 12,
        name: "Lamp".to_string(),
        kind,
        area: None,
        fade_secs: None,
        invert_position: false,
        buttons: vec![1, 2],
        ccis: vec![30, 31],
    })
}

fn cmd(text: &str) -> serde_json::Value {
    serde_json::from_str(text).unwrap()
}

fn sent(kind: DeviceKind, text: &str) -> Vec<LipCommand> {
    entry(kind).translate_command(&cmd(text), num(1.0))
}

fn set_level(level: Level, fade: f64) -> Vec<LipCommand> {
    vec![LipCommand::SetLevel { integration_id: 12, level, fade_secs: num(fade) }]
}

fn shade(action: u32) -> Vec<LipCommand> {
    vec![LipCommand::ShadeAction { integration_id: 12, action }]
}

fn led(component: u32, state: u8) -> Vec<LipCommand> {
    vec![LipCommand::DeviceLed { integration_id: 12, component, state }]
}

fn show(patch: &[Attribute]) -> Vec<String> {
    patch
        .iter()
        .map(|a| match &a.value {
            PatchValue::Flag(b) => format!("{}={}", a.name, b),
            PatchValue::Text(s) => format!("{}={}", a.name, s),
            PatchValue::Integer(n) => format!("{}={}", a.name, n),
            PatchValue::Tenths(x) => format!("{}~{}", a.name, f64::from_bits(x.bits)),
            PatchValue::InvertedTenths(x) => {
                format!("{}~100-{}", a.name, f64::from_bits(x.bits))
            }
            PatchValue::Byte(x) => format!("{}#{}", a.name, f64::from_bits(x.bits)),
        })
        .collect()
}

#[test]
fn defaults() {
    assert_eq!(default_broker_host(), "127.0.0.1");
    assert_eq!(default_broker_port(), 1883);
    assert_eq!(default_plugin_id(), "plugin.lutron");
    assert_eq!(default_lip_port(), 23);
    assert_eq!(default_username(), "lutron");
    assert_eq!(default_fade_secs(), num(1.0));
    assert_eq!(default_hold_threshold_ms(), 500);
    assert_eq!(default_reconnect_delay_secs(), 5);
}

#[test]
fn identities() {
    assert_eq!(entry(DeviceKind::Dimmer).hc_id, "lutron_12");
    let scene = SceneConfig {
        name: "Good Night".to_string(),
        main_repeater_id: 1,
        button_component: 4,
    };
    assert_eq!(scene.hc_id(), "lutron_scene_good_night");
    assert_eq!(SceneEntry::new(scene).hc_id, "lutron_scene_good_night");
    let tc = TimeclockEntry::new(TimeclockConfig {
        name: "Sunset".to_string(),
        area: None,
        device_id: "lutron_tc_sunset".to_string(),
    });
    assert_eq!(tc.hc_id, "lutron_tc_sunset");
    assert_eq!(tc.config.name, "Sunset");
}

#[test]
fn device_types() {
    let types: Vec<&str> = KINDS.iter().map(|k| entry(*k).homecore_device_type()).collect();
    assert_eq!(
        types,
        ["light", "switch", "cover", "button", "button", "occupancy_sensor", "button"]
    );
}

#[test]
fn device_classes() {
    let outputs: Vec<bool> = KINDS.iter().map(|k| entry(*k).is_output()).collect();
    assert_eq!(outputs, [true, true, true, false, false, false, false]);
    let groups: Vec<bool> = KINDS.iter().map(|k| entry(*k).is_group()).collect();
    assert_eq!(groups, [false, false, false, false, false, true, false]);
    let buttons: Vec<bool> = KINDS.iter().map(|k| entry(*k).is_button_device()).collect();
    assert_eq!(buttons, [false, false, false, true, true, false, true]);
}

#[test]
fn components() {
    let vcrx = entry(DeviceKind::Vcrx);
    assert!(vcrx.has_ccis());
    assert_eq!(vcrx.cci_components(), &[30, 31][..]);
    assert_eq!(vcrx.button_components(), &[1, 2][..]);
    assert!(vcrx.is_cci_component(31));
    assert!(!vcrx.is_cci_component(1));
    assert!(vcrx.is_button_component(1));
    assert!(!vcrx.is_button_component(30));
    assert!(entry(DeviceKind::Keypad).is_button_component(30));
    assert!(entry(DeviceKind::Pico).is_button_component(4));
    assert!(!entry(DeviceKind::Dimmer).is_button_component(1));
}

#[test]
fn fade_times() {
    let mut dev = entry(DeviceKind::Dimmer);
    assert_eq!(dev.fade_secs(num(1.0)), num(1.0));
    dev.config.fade_secs = Some(num(3.0));
    assert_eq!(dev.fade_secs(num(1.0)), num(3.0));
    let on = dev.translate_command(&cmd(r#"{"on": true}"#), num(1.0));
    assert_eq!(on, set_level(Level::Exact(num(100.0)), 3.0));
    let on = dev.translate_command(&cmd(r#"{"on": true, "fade_secs": 0.5}"#), num(1.0));
    assert_eq!(on, set_level(Level::Exact(num(100.0)), 0.5));
}

#[test]
fn output_states() {
    let patch = entry(DeviceKind::Dimmer).translate_output_state(num(33.3)).unwrap();
    assert_eq!(show(&patch), ["on=true", "brightness_pct~33.3", "brightness#33.3"]);
    let patch = entry(DeviceKind::Dimmer).translate_output_state(num(0.0)).unwrap();
    assert_eq!(show(&patch), ["on=false", "brightness_pct~0", "brightness#0"]);
    let patch = entry(DeviceKind::Switch).translate_output_state(num(100.0)).unwrap();
    assert_eq!(show(&patch), ["on=true"]);
    let patch = entry(DeviceKind::Switch).translate_output_state(num(-0.0)).unwrap();
    assert_eq!(show(&patch), ["on=false"]);
    let mut shade = entry(DeviceKind::Shade);
    assert_eq!(show(&shade.translate_output_state(num(25.0)).unwrap()), ["position~25"]);
    shade.config.invert_position = true;
    assert_eq!(show(&shade.translate_output_state(num(25.0)).unwrap()), ["position~100-25"]);
    for kind in [DeviceKind::Keypad, DeviceKind::Pico, DeviceKind::OccupancyGroup, DeviceKind::Vcrx]
    {
        assert!(entry(kind).translate_output_state(num(50.0)).is_none());
    }
}

#[test]
fn occupancy_states() {
    let patch = entry(DeviceKind::OccupancyGroup).translate_occupancy_state(true);
    assert_eq!(show(&patch), ["occupied=true", "occupancy=true"]);
    let patch = entry(DeviceKind::OccupancyGroup).translate_occupancy_state(false);
    assert_eq!(show(&patch), ["occupied=false", "occupancy=false"]);
}

#[test]
fn dimmer_commands() {
    let exact = |x: f64| set_level(Level::Exact(num(x)), 1.0);
    assert_eq!(sent(DeviceKind::Dimmer, r#"{"brightness_pct": 40.5}"#), exact(40.5));
    assert_eq!(sent(DeviceKind::Dimmer, r#"{"brightness_pct": 140}"#), exact(100.0));
    assert_eq!(sent(DeviceKind::Dimmer, r#"{"brightness_pct": -1}"#), exact(0.0));
    assert_eq!(sent(DeviceKind::Dimmer, r#"{"brightness": 100}"#), exact(100.0));
    assert_eq!(sent(DeviceKind::Dimmer, r#"{"brightness": -7}"#), exact(0.0));
    assert_eq!(
        sent(DeviceKind::Dimmer, r#"{"brightness": 128}"#),
        set_level(Level::FromByte(num(128.0)), 1.0)
    );
    assert_eq!(sent(DeviceKind::Dimmer, r#"{"on": true}"#), exact(100.0));
    assert_eq!(sent(DeviceKind::Dimmer, r#"{"on": false}"#), exact(0.0));
    assert_eq!(
        sent(DeviceKind::Dimmer, r#"{"on": false, "brightness": 20, "brightness_pct": 30}"#),
        exact(30.0)
    );
    assert_eq!(sent(DeviceKind::Dimmer, r#"{"on": false, "brightness": 20}"#), exact(20.0));
    assert_eq!(sent(DeviceKind::Dimmer, r#"{"fade_secs": 4}"#), vec![]);
}

#[test]
fn switch_commands() {
    let level = |x: f64| set_level(Level::Exact(num(x)), 0.0);
    assert_eq!(sent(DeviceKind::Switch, r#"{"on": true, "fade_secs": 4}"#), level(100.0));
    assert_eq!(sent(DeviceKind::Switch, r#"{"on": false}"#), level(0.0));
    assert_eq!(sent(DeviceKind::Switch, r#"{"brightness_pct": 40}"#), vec![]);
}

#[test]
fn shade_commands() {
    assert_eq!(
        sent(DeviceKind::Shade, r#"{"position": 130}"#),
        set_level(Level::Exact(num(100.0)), 0.0)
    );
    let mut inverted = entry(DeviceKind::Shade);
    inverted.config.invert_position = true;
    assert_eq!(
        inverted.translate_command(&cmd(r#"{"position": 30}"#), num(1.0)),
        set_level(Level::Inverted(num(30.0)), 0.0)
    );
    assert_eq!(sent(DeviceKind::Shade, r#"{"raise": true, "lower": true}"#), shade(2));
    assert_eq!(sent(DeviceKind::Shade, r#"{"lower": true, "stop": true}"#), shade(3));
    assert_eq!(sent(DeviceKind::Shade, r#"{"raise": false, "stop": true}"#), shade(4));
    assert_eq!(sent(DeviceKind::Shade, r#"{"raise": false}"#), vec![]);
}

#[test]
fn led_commands() {
    for kind in [DeviceKind::Keypad, DeviceKind::Vcrx] {
        assert_eq!(sent(kind, r#"{"set_led": {"button": 3, "state": 1}}"#), led(83, 1));
        assert_eq!(sent(kind, r#"{"set_led": {"button": 3, "state": 9}}"#), led(83, 3));
        assert_eq!(sent(kind, r#"{"set_led": {"button": 3}}"#), led(83, 0));
        assert_eq!(sent(kind, r#"{"set_led": {"state": 1}}"#), vec![]);
        assert_eq!(sent(kind, r#"{"set_led": 5}"#), vec![]);
        assert_eq!(sent(kind, r#"{"on": true}"#), vec![]);
        // Only the lower 32 bits of a button number count.
        assert_eq!(sent(kind, r#"{"set_led": {"button": 4294967299, "state": 2}}"#), led(83, 2));
        assert_eq!(sent(kind, r#"{"set_led": {"button": 4294967296}}"#), vec![]);
        // There is no LED past the last component number.
        assert_eq!(sent(kind, r#"{"set_led": {"button": 4294967295}}"#), vec![]);
    }
    assert_eq!(led_component_for_button(5), Some(85));
    assert_eq!(led_component_for_button(4_294_967_215), Some(4_294_967_295));
    assert_eq!(led_component_for_button(4_294_967_216), None);
}

#[test]
fn levels_settle_in_range() {
    let settle = |level: Level, computed: f64| f64::from_bits(level.settle(num(computed)).bits);
    assert_eq!(settle(Level::Exact(num(40.0)), 7.0), 40.0);
    assert_eq!(settle(Level::FromByte(num(128.0)), 128.0 / 255.0 * 100.0), 128.0 / 255.0 * 100.0);
    assert_eq!(settle(Level::FromByte(num(1e300)), 1e300 / 255.0 * 100.0), 100.0);
    assert_eq!(settle(Level::Inverted(num(30.0)), 70.0), 70.0);
    assert_eq!(settle(Level::Inverted(num(130.0)), -30.0), 0.0);
}

#[test]
fn published_states_can_be_sent_back() {
    let dimmer = r#"{"on": true, "brightness_pct": 33.3, "brightness": 85}"#;
    assert_eq!(sent(DeviceKind::Dimmer, dimmer), set_level(Level::Exact(num(33.3)), 1.0));
    assert_eq!(
        sent(DeviceKind::Shade, r#"{"position": 25}"#),
        set_level(Level::Exact(num(25.0)), 0.0)
    );
}

#[test]
fn read_only_devices_take_no_commands() {
    let all = r#"{"on": true, "brightness": 5, "position": 5, "raise": true,
                  "set_led": {"button": 1, "state": 1}, "activate": true}"#;
    assert_eq!(sent(DeviceKind::Pico, all), vec![]);
    assert_eq!(sent(DeviceKind::OccupancyGroup, all), vec![]);
    for kind in KINDS {
        assert!(sent(kind, all).len() <= 1);
        // Pressing a button takes a pause, so it is not among the translated commands.
        assert_eq!(sent(kind, r#"{"press_button": {"button": 2}}"#), vec![]);
    }
}
