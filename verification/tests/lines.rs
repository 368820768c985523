//! Lines of the Lutron Integration Protocol.

use hc_lutron::number::Number;
use hc_lutron::protocol::{Level, LipCommand, LipMessage};
use hc_lutron::text::read_decimal;
use hc_lutron::wire::{fields, read_line, without_prompts, write_command};

fn num(x: f64) -> Number {
    Number { bits: x.to_bits() }
}

fn message(line: &str, value: Option<Number>) -> LipMessage {
    read_line(line).into_message(line.to_string(), value)
}

fn read(line: &str) -> String {
    format!("{:?}", read_line(line))
}

#[test]
fn decimals_are_read() {
    assert_eq!(read_decimal("0"), Some(0));
    assert_eq!(read_decimal("007"), Some(7));
    assert_eq!(read_decimal("4294967295"), Some(4_294_967_295));
    for text in ["", "4294967296", "99999999999999999999999", "-1", "+1", "1.0", " 1", "1a"] {
        assert_eq!(read_decimal(text), None, "{text}");
    }
}

#[test]
fn lines_are_split_at_commas() {
    assert_eq!(fields("~OUTPUT,2,1,75.00"), ["~OUTPUT", "2", "1", "75.00"]);
    assert_eq!(fields(""), [""]);
    assert_eq!(fields(",a,"), ["", "a", ""]);
}

#[test]
fn reports_are_read() {
    assert_eq!(
        read("~OUTPUT,2,1,75.00"),
        "Output { integration_id: 2, action: 1, value: \"75.00\" }"
    );
    assert_eq!(
        read("~DEVICE,5,3,3"),
        "Device { integration_id: 5, component: 3, action: Press }"
    );
    assert_eq!(
        read("~DEVICE,5,3,4"),
        "Device { integration_id: 5, component: 3, action: Release }"
    );
    assert_eq!(
        read("~DEVICE,5,3,6"),
        "Device { integration_id: 5, component: 3, action: DoubleClick }"
    );
    assert_eq!(
        read("~DEVICE,5,83,9,255"),
        "Device { integration_id: 5, component: 83, action: Led(255) }"
    );
    assert_eq!(read("~GROUP,4,3,3"), "Group { integration_id: 4, state: Occupied }");
    assert_eq!(read("~GROUP,4,3,4"), "Group { integration_id: 4, state: Unoccupied }");
    assert_eq!(read("~GROUP,4,3,255"), "Group { integration_id: 4, state: Unknown }");
    assert_eq!(read("GNET>"), "Prompt");
    assert_eq!(read("~ERROR,4"), "Error(\"4\")");
}

#[test]
fn other_lines_are_unknown() {
    for line in [
        "", "~OUTPUT,2,1", "~OUTPUT,x,1,75.00", "~DEVICE,5,83,9", "~DEVICE,5,83,9,256",
        "~DEVICE,5,3,5", "~GROUP,4,1,3", "~ERROR", "~MONITORING,5,1", "OUTPUT,2,1,75.00",
    ] {
        assert_eq!(read(line), format!("Unknown({line:?})"));
    }
}

#[test]
fn lines_become_messages() {
    let level = message("~OUTPUT,2,1,75.00", Some(num(75.0)));
    assert_eq!(
        format!("{level:?}"),
        format!("Output {{ integration_id: 2, action: ZoneLevel, value: {:?} }}", num(75.0))
    );
    let other = message("~OUTPUT,2,29,6", Some(num(6.0)));
    assert_eq!(
        format!("{other:?}"),
        format!("Output {{ integration_id: 2, action: Other(29), value: {:?} }}", num(6.0))
    );
    let bad = message("~OUTPUT,2,1,high", None);
    assert_eq!(format!("{bad:?}"), "Unknown(\"~OUTPUT,2,1,high\")");
    let group = message("~GROUP,4,3,3", None);
    assert_eq!(format!("{group:?}"), "Group { integration_id: 4, state: Occupied }");
    let prompt = message("GNET>", None);
    assert_eq!(format!("{prompt:?}"), "Prompt");
    let device = message("~DEVICE,5,3,3", None);
    assert_eq!(
        format!("{device:?}"),
        "Device { integration_id: 5, component: 3, action: Press }"
    );
}

#[test]
fn commands_are_written() {
    let line = |command: LipCommand| write_command(&command, "75.00", "1.50");
    assert_eq!(
        line(LipCommand::SetLevel {
            integration_id: 2,
            level: Level::Exact(num(75.0)),
            fade_secs: num(1.5),
        }),
        "#OUTPUT,2,1,75.00,1.50"
    );
    assert_eq!(line(LipCommand::ShadeAction { integration_id: 6, action: 4 }), "#OUTPUT,6,4");
    assert_eq!(
        line(LipCommand::DeviceLed { integration_id: 3, component: 83, state: 1 }),
        "#DEVICE,3,83,9,1"
    );
    assert_eq!(
        line(LipCommand::DeviceAction { integration_id: 1, component: 5, action: 3 }),
        "#DEVICE,1,5,3"
    );
    assert_eq!(line(LipCommand::QueryOutput { integration_id: 2 }), "?OUTPUT,2,1");
    assert_eq!(line(LipCommand::QueryGroup { integration_id: 4 }), "?GROUP,4,3");
    assert_eq!(
        line(LipCommand::QueryLed { integration_id: 3, component: 81 }),
        "?DEVICE,3,81,9"
    );
}

#[test]
fn prompts_are_stripped() {
    assert_eq!(without_prompts("GNET> ~OUTPUT,2,1,75.00\r\n"), "~OUTPUT,2,1,75.00");
    assert_eq!(without_prompts("GNET>GNET>  GNET> \t~ERROR,4 "), "~ERROR,4");
    assert_eq!(without_prompts("~ERROR,4"), "~ERROR,4");
    assert_eq!(without_prompts(" GNET> "), "GNET>");
    assert_eq!(without_prompts("GNET>GNET>"), "GNET>");
    assert_eq!(without_prompts("  "), "");
    assert_eq!(without_prompts("a GNET> b"), "a GNET> b");
    assert_eq!(without_prompts("GNE> b"), "GNE> b");
}
