//! Numbers, texts and payloads.

use hc_lutron::command::{read_command, SetLed};
use hc_lutron::number::Number;
use hc_lutron::text::{decimal, prefixed, slug, slug_char, slug_lowered};

fn num(x: f64) -> Number {
    Number { bits: x.to_bits() }
}

fn value(text: &str) -> serde_json::Value {
    serde_json::from_str(text).unwrap()
}

#[test]
fn constants_are_the_numbers_they_name() {
    assert_eq!(Number::zero(), num(0.0));
    assert_eq!(Number::one(), num(1.0));
    assert_eq!(Number::hundred(), num(100.0));
}

#[test]
fn less_agrees_with_floating_point() {
    let samples = [
        f64::NEG_INFINITY, -1e300, -100.5, -1.0, -f64::MIN_POSITIVE, -5e-324, -0.0, 0.0, 5e-324,
        f64::MIN_POSITIVE, 0.1, 1.0, 99.99, 100.0, 100.00001, 255.0, 1e300, f64::INFINITY,
        f64::NAN, -f64::NAN,
    ];
    for a in samples {
        for b in samples {
            assert_eq!(num(a).less(num(b)), a < b, "{a} {b}");
        }
    }
}

#[test]
fn clamp_agrees_with_floating_point() {
    let samples = [
        f64::NEG_INFINITY, -1.0, -5e-324, -0.0, 0.0, 0.25, 50.0, 100.0, 100.00001, 255.0,
        f64::INFINITY, f64::NAN,
    ];
    for x in samples {
        assert_eq!(num(x).clamp_percent().bits, x.clamp(0.0, 100.0).to_bits(), "{x}");
        let once = num(x).clamp_percent();
        assert_eq!(once.clamp_percent(), once);
    }
}

#[test]
fn decimals() {
    assert_eq!(decimal(0), "0");
    assert_eq!(decimal(7), "7");
    assert_eq!(decimal(10), "10");
    assert_eq!(decimal(4_294_967_295), "4294967295");
    assert_ne!(decimal(11), decimal(1));
}

#[test]
fn slugs() {
    assert_eq!(slug("Good Night"), "good_night");
    assert_eq!(slug("Kitchen (All) #2"), "kitchen__all___2");
    assert_eq!(slug("\u{c9}t\u{e9}"), "\u{e9}t\u{e9}");
    assert_eq!(slug(""), "");
    assert_eq!(slug_lowered("a b"), "a_b");
    assert_eq!(slug_lowered("A b"), "A_b");
    assert_eq!(slug_lowered(&slug_lowered("x-y_z")), slug_lowered("x-y_z"));
    assert_eq!(slug_char('-', false), '_');
    assert_eq!(slug_char('-', true), '-');
    assert_eq!(prefixed("ab", "cd"), "abcd");
}

#[test]
fn payload_members_are_read() {
    let cmd = read_command(&value(
        r#"{"fade_secs": 2.5, "brightness_pct": 40, "brightness": 128, "on": true,
            "position": -3, "raise": true, "lower": false, "stop": true,
            "set_led": {"button": 3, "state": 1}, "press_button": {"button": 7},
            "activate": true}"#,
    ));
    assert_eq!(cmd.fade_secs, Some(num(2.5)));
    assert_eq!(cmd.brightness_pct, Some(num(40.0)));
    assert_eq!(cmd.brightness, Some(num(128.0)));
    assert_eq!(cmd.on, Some(true));
    assert_eq!(cmd.position, Some(num(-3.0)));
    assert_eq!(cmd.raise, Some(true));
    assert_eq!(cmd.lower, Some(false));
    assert_eq!(cmd.stop, Some(true));
    assert_eq!(cmd.set_led, Some(SetLed { button: Some(3), state: Some(1) }));
    assert_eq!(cmd.press_button, Some(7));
    assert_eq!(cmd.activate, Some(true));
}

#[test]
fn huge_numbers_are_finite() {
    let cmd = read_command(&value(r#"{"position": 1e308, "brightness": -1.5e308}"#));
    assert_eq!(cmd.position, Some(num(1e308)));
    assert_eq!(cmd.brightness, Some(num(-1.5e308)));
    assert!(serde_json::from_str::<serde_json::Value>(r#"{"position": 1e400}"#).is_err());
    assert_eq!(serde_json::Value::from(f64::NAN), serde_json::Value::Null);
    assert_eq!(serde_json::Value::from(f64::INFINITY), serde_json::Value::Null);
}

#[test]
fn members_of_another_kind_are_not_there() {
    let cmd = read_command(&value(
        r#"{"fade_secs": "2", "brightness": null, "on": 1, "activate": "true",
            "set_led": {"button": -3, "state": 1.5}}"#,
    ));
    assert_eq!(cmd.fade_secs, None);
    assert_eq!(cmd.brightness, None);
    assert_eq!(cmd.brightness_pct, None);
    assert_eq!(cmd.on, None);
    assert_eq!(cmd.activate, None);
    assert_eq!(cmd.set_led, Some(SetLed { button: None, state: None }));
    assert_eq!(
        read_command(&value(r#"{"set_led": null}"#)).set_led,
        Some(SetLed { button: None, state: None })
    );
}

#[test]
fn only_objects_carry_commands() {
    for text in ["null", "true", "5", "\"on\"", "[{\"on\": true}]"] {
        let cmd = read_command(&value(text));
        assert_eq!(cmd, read_command(&value("{}")));
        assert_eq!(cmd.on, None);
        assert_eq!(cmd.set_led, None);
    }
}
