//! The Lutron Integration Protocol as lines of text: comma-separated fields, the first of which
//! says what the line is about.

use crate::number::Number;
use crate::protocol::{
    DeviceAction, Level, LipCommand, LipMessage, OccupancyState, OutputAction, ACTION_PRESS,
    ACTION_RELEASE,
};
use crate::startup::texts;
use crate::text::{
    decimal, decimal_digits, decimal_digits_are_digits, decimals_are_positional,
    decimals_are_read_back, parsed_decimal, read_decimal,
};
use vstd::prelude::*;
use vstd::string::StringExecFns;

verus! {

/// Action number of a zone level.
pub const ACTION_LEVEL: u32 = 1;

/// Action number of an occupancy state.
pub const ACTION_OCCUPANCY: u32 = 3;

/// Action number of a double click.
pub const ACTION_DOUBLE_CLICK: u32 = 6;

/// Action number of an LED state.
pub const ACTION_LED: u32 = 9;

/// State number of an occupied group.
pub const STATE_OCCUPIED: u32 = 3;

/// State number of an unoccupied group.
pub const STATE_UNOCCUPIED: u32 = 4;

/// The fields of a line: the texts between its commas.
pub open spec fn fields_of(line: Seq<char>) -> Seq<Seq<char>>
    decreases line.len(),
{
    if line.len() == 0 {
        seq![seq![]]
    } else {
        let before = fields_of(line.drop_last());
        if line.last() == ',' {
            before.push(seq![])
        } else {
            before.drop_last().push(before.last().push(line.last()))
        }
    }
}

/// Splits a line into its fields.
pub fn fields(line: &str) -> (r: Vec<String>)
    ensures
        texts(r@) == fields_of(line@),
{
    let mut done: Vec<String> = Vec::new();
    let mut current = String::new();
    assert(texts(done@).push(current@) =~= fields_of(line@.take(0)));
    for c in it: line.chars()
        invariant
            it.seq() == line@,
            texts(done@).push(current@) == fields_of(line@.take(it.index() as int)),
    {
        let ghost finished = done@;
        let ghost so_far = current@;
        proof {
            let i = it.index() as int;
            assert(line@.take(i + 1).drop_last() =~= line@.take(i));
            assert(line@.take(i + 1).last() == c);
        }
        if c == ',' {
            done.push(current);
            current = String::new();
            assert(texts(done@) =~= texts(finished).push(so_far));
        } else {
            current.push(c);
            assert(texts(finished).push(so_far).drop_last() =~= texts(finished));
        }
    }
    assert(line@.take(line@.len() as int) =~= line@);
    let ghost finished = done@;
    let ghost so_far = current@;
    done.push(current);
    assert(texts(done@) =~= texts(finished).push(so_far));
    done
}

/// A line from the repeater, read as far as it goes without arithmetic.
#[derive(Clone, Debug)]
pub enum Received {
    /// An output reports a number, here still a text, under an action number.
    Output { integration_id: u32, action: u32, value: String },
    /// A component of a device reports.
    Device { integration_id: u32, component: u32, action: DeviceAction },
    /// An occupancy group reports.
    Group { integration_id: u32, state: OccupancyState },
    /// The repeater is ready for a command.
    Prompt,
    /// The repeater did not accept a command.
    Error(String),
    /// Anything else.
    Unknown(String),
}

/// A `Received`, with texts as sequences.
pub enum ReceivedView {
    Output { integration_id: u32, action: u32, value: Seq<char> },
    Device { integration_id: u32, component: u32, action: DeviceAction },
    Group { integration_id: u32, state: OccupancyState },
    Prompt,
    Error(Seq<char>),
    Unknown(Seq<char>),
}

impl View for Received {
    type V = ReceivedView;

    open spec fn view(&self) -> ReceivedView {
        match self {
            Received::Output { integration_id, action, value } => ReceivedView::Output {
                integration_id: *integration_id,
                action: *action,
                value: value@,
            },
            Received::Device { integration_id, component, action } => ReceivedView::Device {
                integration_id: *integration_id,
                component: *component,
                action: *action,
            },
            Received::Group { integration_id, state } => ReceivedView::Group {
                integration_id: *integration_id,
                state: *state,
            },
            Received::Prompt => ReceivedView::Prompt,
            Received::Error(s) => ReceivedView::Error(s@),
            Received::Unknown(s) => ReceivedView::Unknown(s@),
        }
    }
}

/// The report of a component that its action number and what follows stand for.
pub open spec fn device_action_of(action: u32, rest: Seq<Seq<char>>) -> Option<DeviceAction> {
    if action == ACTION_PRESS {
        Some(DeviceAction::Press)
    } else if action == ACTION_RELEASE {
        Some(DeviceAction::Release)
    } else if action == ACTION_DOUBLE_CLICK {
        Some(DeviceAction::DoubleClick)
    } else if action == ACTION_LED && rest.len() > 0 {
        match parsed_decimal(rest[0]) {
            Some(state) => if state <= u8::MAX {
                Some(DeviceAction::Led(state as u8))
            } else {
                None
            },
            None => None,
        }
    } else {
        None
    }
}

/// The state of a group by its number.
pub open spec fn occupancy_state_of(state: u32) -> OccupancyState {
    if state == STATE_OCCUPIED {
        OccupancyState::Occupied
    } else if state == STATE_UNOCCUPIED {
        OccupancyState::Unoccupied
    } else {
        OccupancyState::Unknown
    }
}

/// What the fields of a report from the repeater say, if they say anything.
pub open spec fn report_of(f: Seq<Seq<char>>) -> Option<ReceivedView> {
    if f.len() < 4 {
        None
    } else {
        match (parsed_decimal(f[1]), parsed_decimal(f[2]), parsed_decimal(f[3])) {
            (Some(integration_id), Some(action), _) if f[0] == "~OUTPUT"@ => Some(
                ReceivedView::Output { integration_id, action, value: f[3] },
            ),
            (Some(integration_id), Some(component), Some(action)) if f[0] == "~DEVICE"@ => {
                match device_action_of(action, f.skip(4)) {
                    Some(action) => Some(
                        ReceivedView::Device { integration_id, component, action },
                    ),
                    None => None,
                }
            },
            (Some(integration_id), Some(action), Some(state)) if f[0] == "~GROUP"@ && action
                == ACTION_OCCUPANCY => Some(
                ReceivedView::Group { integration_id, state: occupancy_state_of(state) },
            ),
            _ => None,
        }
    }
}

/// What a line from the repeater says.
pub open spec fn received(line: Seq<char>) -> ReceivedView {
    let f = fields_of(line);
    if line == "GNET>"@ {
        ReceivedView::Prompt
    } else if f[0] == "~ERROR"@ && f.len() >= 2 {
        ReceivedView::Error(f[1])
    } else {
        match report_of(f) {
            Some(report) => report,
            None => ReceivedView::Unknown(line),
        }
    }
}

proof fn there_is_a_field(line: Seq<char>)
    ensures
        fields_of(line).len() > 0,
    decreases line.len(),
{
    if line.len() > 0 {
        there_is_a_field(line.drop_last());
    }
}

fn is_text(s: &String, text: &str) -> (r: bool)
    ensures
        r == (s@ == text@),
{
    *s == text.to_owned()
}

fn device_action(action: u32, state: Option<&String>) -> (r: Option<DeviceAction>)
    ensures
        r == device_action_of(
            action,
            match state {
                Some(s) => seq![s@],
                None => seq![],
            },
        ),
{
    if action == ACTION_PRESS {
        Some(DeviceAction::Press)
    } else if action == ACTION_RELEASE {
        Some(DeviceAction::Release)
    } else if action == ACTION_DOUBLE_CLICK {
        Some(DeviceAction::DoubleClick)
    } else if action == ACTION_LED {
        match state {
            Some(s) => match read_decimal(s.as_str()) {
                Some(n) => if n <= u8::MAX as u32 {
                    Some(DeviceAction::Led(n as u8))
                } else {
                    None
                },
                None => None,
            },
            None => None,
        }
    } else {
        None
    }
}

fn occupancy_state(state: u32) -> (r: OccupancyState)
    ensures
        r == occupancy_state_of(state),
{
    if state == STATE_OCCUPIED {
        OccupancyState::Occupied
    } else if state == STATE_UNOCCUPIED {
        OccupancyState::Unoccupied
    } else {
        OccupancyState::Unknown
    }
}

/// What a report reads as.
pub open spec fn optional_received(r: Option<Received>) -> Option<ReceivedView> {
    match r {
        Some(r) => Some(r@),
        None => None,
    }
}

/// Reads the fields of a report.
fn report(f: &Vec<String>) -> (r: Option<Received>)
    ensures
        optional_received(r) == report_of(texts(f@)),
{
    if f.len() < 4 {
        return None;
    }
    let ghost views = texts(f@);
    assert(views[0] == f@[0]@ && views[1] == f@[1]@ && views[2] == f@[2]@ && views[3] == f@[3]@);
    let integration_id: u32 = match read_decimal(f[1].as_str()) {
        Some(n) => n,
        None => return None,
    };
    let second: u32 = match read_decimal(f[2].as_str()) {
        Some(n) => n,
        None => return None,
    };
    if is_text(&f[0], "~OUTPUT") {
        return Some(Received::Output { integration_id, action: second, value: f[3].clone() });
    }
    let third: u32 = match read_decimal(f[3].as_str()) {
        Some(n) => n,
        None => return None,
    };
    if is_text(&f[0], "~DEVICE") {
        let state = if f.len() > 4 {
            Some(&f[4])
        } else {
            None
        };
        proof {
            if f.len() > 4 {
                assert(views.skip(4)[0] == f@[4]@);
            }
        }
        match device_action(third, state) {
            Some(action) => Some(Received::Device { integration_id, component: second, action }),
            None => None,
        }
    } else if is_text(&f[0], "~GROUP") && second == ACTION_OCCUPANCY {
        Some(Received::Group { integration_id, state: occupancy_state(third) })
    } else {
        None
    }
}

/// Reads a line from the repeater.
pub fn read_line(line: &str) -> (r: Received)
    ensures
        r@ == received(line@),
{
    let whole = line.to_owned();
    let f = fields(line);
    proof {
        there_is_a_field(line@);
        assert(texts(f@)[0] == f@[0]@);
    }
    if is_text(&whole, "GNET>") {
        Received::Prompt
    } else if is_text(&f[0], "~ERROR") && f.len() >= 2 {
        assert(texts(f@)[1] == f@[1]@);
        Received::Error(f[1].clone())
    } else {
        match report(&f) {
            Some(r) => r,
            None => Received::Unknown(whole),
        }
    }
}

/// Whether a character is blank: a space, a tab or a part of a line break.
pub open spec fn is_blank(c: char) -> bool {
    c == ' ' || c == '\t' || c == '\r' || c == '\n'
}

/// A text without the blanks at its start and its end.
pub open spec fn trimmed(s: Seq<char>) -> Seq<char>
    decreases s.len(),
{
    if s.len() > 0 && is_blank(s[0]) {
        trimmed(s.skip(1))
    } else if s.len() > 0 && is_blank(s.last()) {
        trimmed(s.drop_last())
    } else {
        s
    }
}

/// Trimming makes no text longer.
pub proof fn trimming_shortens(s: Seq<char>)
    ensures
        trimmed(s).len() <= s.len(),
    decreases s.len(),
{
    if s.len() > 0 && is_blank(s[0]) {
        trimming_shortens(s.skip(1));
    } else if s.len() > 0 && is_blank(s.last()) {
        trimming_shortens(s.drop_last());
    }
}

/// Whether a text starts with a prompt and goes on after it.
pub open spec fn starts_with_prompt(s: Seq<char>) -> bool {
    s.len() > 5 && s.take(5) == "GNET>"@
}

/// A line without the prompts in front of it, and without blanks around it. Prompts end without a
/// line break, so they stand in front of the line that follows them. Of prompts alone one is left.
pub open spec fn stripped(line: Seq<char>) -> Seq<char>
    decreases line.len(),
{
    proof {
        trimming_shortens(line);
    }
    if starts_with_prompt(trimmed(line)) {
        stripped(trimmed(line).skip(5))
    } else {
        trimmed(line)
    }
}

fn blank(c: char) -> (r: bool)
    ensures
        r == is_blank(c),
{
    c == ' ' || c == '\t' || c == '\r' || c == '\n'
}

/// Strips a line of the prompts in front of it and of the blanks around it.
pub fn without_prompts(line: &str) -> (r: String)
    ensures
        r@ == stripped(line@),
{
    let mut chars: Vec<char> = Vec::new();
    for c in it: line.chars()
        invariant
            it.seq() == line@,
            chars@ == line@.take(it.index() as int),
    {
        chars.push(c);
    }
    let mut start: usize = 0;
    let mut end: usize = chars.len();
    assert(chars@.subrange(0, end as int) =~= line@);
    loop
        invariant
            start <= end <= chars.len(),
            stripped(chars@.subrange(start as int, end as int)) == stripped(line@),
        ensures
            start <= end <= chars.len(),
            chars@.subrange(start as int, end as int) == stripped(line@),
        decreases end - start,
    {
        let ghost rest = chars@.subrange(start as int, end as int);
        if start < end && blank(chars[start]) {
            start += 1;
            assert(chars@.subrange(start as int, end as int) =~= rest.skip(1));
        } else if start < end && blank(chars[end - 1]) {
            end -= 1;
            assert(chars@.subrange(start as int, end as int) =~= rest.drop_last());
        } else if end - start > 5 && chars[start] == 'G' && chars[start + 1] == 'N' && chars[start
            + 2] == 'E' && chars[start + 3] == 'T' && chars[start + 4] == '>' {
            start += 5;
            proof {
                reveal_strlit("GNET>");
                assert(rest.take(5) =~= "GNET>"@);
                assert(chars@.subrange(start as int, end as int) =~= rest.skip(5));
            }
        } else {
            proof {
                reveal_strlit("GNET>");
                if starts_with_prompt(rest) {
                    assert(rest.take(5)[0] == 'G' && rest.take(5)[1] == 'N' && rest.take(5)[2]
                        == 'E' && rest.take(5)[3] == 'T' && rest.take(5)[4] == '>');
                }
            }
            break ;
        }
    }
    let mut out = String::new();
    let mut i: usize = start;
    while i < end
        invariant
            start <= i <= end <= chars.len(),
            out@ == chars@.subrange(start as int, i as int),
        decreases end - i,
    {
        out.push(chars[i]);
        i += 1;
        assert(out@ =~= chars@.subrange(start as int, i as int));
    }
    out
}

/// A prompt in front of a line, with or without blanks between them, makes no difference, as long
/// as there is a line.
pub proof fn prompts_make_no_difference(line: Seq<char>)
    requires
        line.len() > 0,
        !is_blank(line.last()),
    ensures
        stripped("GNET>"@ + line) == stripped(line),
        stripped("GNET> "@ + line) == stripped(line),
{
    reveal_strlit("GNET>");
    reveal_strlit("GNET> ");
    reveal_with_fuel(trimmed, 2);
    let close = "GNET>"@ + line;
    let apart = "GNET> "@ + line;
    assert(close.take(5) =~= "GNET>"@);
    assert(close.skip(5) =~= line);
    assert(apart.take(5) =~= "GNET>"@);
    let spaced = apart.skip(5);
    assert(spaced.skip(1) =~= line);
    assert(trimmed(spaced) == trimmed(line));
    assert(stripped(spaced) == stripped(line));
    assert(trimmed(apart) == apart);
    assert(stripped(apart) == stripped(spaced));
}

/// What an output reports on, by its action number.
pub open spec fn output_action_of(action: u32) -> OutputAction {
    if action == ACTION_LEVEL {
        OutputAction::ZoneLevel
    } else {
        OutputAction::Other(action)
    }
}

/// The message that a line stands for, given the line itself and the number that the text in it
/// stands for.
pub open spec fn message_of(read: Received, line: String, value: Option<Number>) -> LipMessage {
    match read {
        Received::Output { integration_id, action, .. } => match value {
            Some(value) => LipMessage::Output {
                integration_id,
                action: output_action_of(action),
                value,
            },
            None => LipMessage::Unknown(line),
        },
        Received::Device { integration_id, component, action } => LipMessage::Device {
            integration_id,
            component,
            action,
        },
        Received::Group { integration_id, state } => LipMessage::Group { integration_id, state },
        Received::Prompt => LipMessage::Prompt,
        Received::Error(s) => LipMessage::Error(s),
        Received::Unknown(s) => LipMessage::Unknown(s),
    }
}

impl Received {
    /// Turns what was read into a message, given the line and the number that the text of an
    /// output stands for. A text that is no number makes the line an unknown one.
    pub fn into_message(self, line: String, value: Option<Number>) -> (r: LipMessage)
        ensures
            r == message_of(self, line, value),
    {
        match self {
            Received::Output { integration_id, action, .. } => match value {
                Some(value) => {
                    let action = if action == ACTION_LEVEL {
                        OutputAction::ZoneLevel
                    } else {
                        OutputAction::Other(action)
                    };
                    LipMessage::Output { integration_id, action, value }
                },
                None => LipMessage::Unknown(line),
            },
            Received::Device { integration_id, component, action } => {
                LipMessage::Device { integration_id, component, action }
            },
            Received::Group { integration_id, state } => {
                LipMessage::Group { integration_id, state }
            },
            Received::Prompt => LipMessage::Prompt,
            Received::Error(s) => LipMessage::Error(s),
            Received::Unknown(s) => LipMessage::Unknown(s),
        }
    }
}

/// A further field of a line.
pub open spec fn with_field(line: Seq<char>, field: Seq<char>) -> Seq<char> {
    line.push(',') + field
}

/// A further field of a line, a number.
pub open spec fn with_number(line: Seq<char>, n: u32) -> Seq<char> {
    with_field(line, decimal_digits(n as nat))
}

/// The line of a command. The level and the fade time of an output are given as texts.
pub open spec fn command_line(command: LipCommand, level: Seq<char>, fade: Seq<char>) -> Seq<
    char,
> {
    match command {
        LipCommand::SetLevel { integration_id, .. } => with_field(
            with_field(
                with_number(with_number("#OUTPUT"@, integration_id), ACTION_LEVEL),
                level,
            ),
            fade,
        ),
        LipCommand::ShadeAction { integration_id, action } => with_number(
            with_number("#OUTPUT"@, integration_id),
            action,
        ),
        LipCommand::DeviceLed { integration_id, component, state } => with_number(
            with_number(
                with_number(with_number("#DEVICE"@, integration_id), component),
                ACTION_LED,
            ),
            state as u32,
        ),
        LipCommand::DeviceAction { integration_id, component, action } => with_number(
            with_number(with_number("#DEVICE"@, integration_id), component),
            action,
        ),
        LipCommand::QueryOutput { integration_id } => with_number(
            with_number("?OUTPUT"@, integration_id),
            ACTION_LEVEL,
        ),
        LipCommand::QueryGroup { integration_id } => with_number(
            with_number("?GROUP"@, integration_id),
            ACTION_OCCUPANCY,
        ),
        LipCommand::QueryLed { integration_id, component } => with_number(
            with_number(with_number("?DEVICE"@, integration_id), component),
            ACTION_LED,
        ),
    }
}

fn add_field(line: &mut String, field: &str)
    ensures
        final(line)@ == with_field(old(line)@, field@),
{
    line.push(',');
    line.append(field);
}

fn add_number(line: &mut String, n: u32)
    ensures
        final(line)@ == with_number(old(line)@, n),
{
    let digits = decimal(n);
    add_field(line, digits.as_str());
}

/// Writes a command as a line. The texts of the level and the fade time stand in the line only
/// where an output is set to a level.
pub fn write_command(command: &LipCommand, level: &str, fade: &str) -> (r: String)
    ensures
        r@ == command_line(*command, level@, fade@),
{
    match *command {
        LipCommand::SetLevel { integration_id, .. } => {
            let mut line = "#OUTPUT".to_owned();
            add_number(&mut line, integration_id);
            add_number(&mut line, ACTION_LEVEL);
            add_field(&mut line, level);
            add_field(&mut line, fade);
            line
        },
        LipCommand::ShadeAction { integration_id, action } => {
            let mut line = "#OUTPUT".to_owned();
            add_number(&mut line, integration_id);
            add_number(&mut line, action);
            line
        },
        LipCommand::DeviceLed { integration_id, component, state } => {
            let mut line = "#DEVICE".to_owned();
            add_number(&mut line, integration_id);
            add_number(&mut line, component);
            add_number(&mut line, ACTION_LED);
            add_number(&mut line, state as u32);
            line
        },
        LipCommand::DeviceAction { integration_id, component, action } => {
            let mut line = "#DEVICE".to_owned();
            add_number(&mut line, integration_id);
            add_number(&mut line, component);
            add_number(&mut line, action);
            line
        },
        LipCommand::QueryOutput { integration_id } => {
            let mut line = "?OUTPUT".to_owned();
            add_number(&mut line, integration_id);
            add_number(&mut line, ACTION_LEVEL);
            line
        },
        LipCommand::QueryGroup { integration_id } => {
            let mut line = "?GROUP".to_owned();
            add_number(&mut line, integration_id);
            add_number(&mut line, ACTION_OCCUPANCY);
            line
        },
        LipCommand::QueryLed { integration_id, component } => {
            let mut line = "?DEVICE".to_owned();
            add_number(&mut line, integration_id);
            add_number(&mut line, component);
            add_number(&mut line, ACTION_LED);
            line
        },
    }
}

/// Whether a text holds no comma.
pub open spec fn comma_free(s: Seq<char>) -> bool {
    forall|i: int| 0 <= i < s.len() ==> #[trigger] s[i] != ','
}

/// A field that is added to a line and holds no comma is the last of its fields, and the fields
/// before it are those of the line.
pub proof fn added_fields_are_found(line: Seq<char>, field: Seq<char>)
    requires
        comma_free(field),
    ensures
        fields_of(with_field(line, field)) == fields_of(line).push(field),
    decreases field.len(),
{
    let all = with_field(line, field);
    if field.len() == 0 {
        assert(all.drop_last() =~= line);
        assert(field =~= seq![]);
    } else {
        let before = field.drop_last();
        assert(field[field.len() - 1] != ',');
        assert(all.drop_last() =~= with_field(line, before));
        added_fields_are_found(line, before);
        assert(before.push(field.last()) =~= field);
        assert(fields_of(line).push(before).drop_last() =~= fields_of(line));
    }
}

/// A number that is added to a line is the last of its fields.
pub proof fn added_numbers_are_found(line: Seq<char>, n: u32)
    ensures
        fields_of(with_number(line, n)) == fields_of(line).push(decimal_digits(n as nat)),
        parsed_decimal(fields_of(with_number(line, n)).last()) == Some(n),
{
    decimal_digits_are_digits(n as nat);
    decimals_are_read_back(n);
    added_fields_are_found(line, decimal_digits(n as nat));
}

proof fn single_field(line: Seq<char>)
    requires
        comma_free(line),
    ensures
        fields_of(line) == seq![line],
    decreases line.len(),
{
    if line.len() > 0 {
        assert(line[line.len() - 1] != ',');
        single_field(line.drop_last());
        assert(line.drop_last().push(line.last()) =~= line);
        assert(fields_of(line) =~= seq![line]);
    } else {
        assert(line =~= seq![]);
    }
}

/// The report of any component of any device is read as it was meant: a press, a release or a
/// double click by its action number, and an LED state by the number that follows.
pub proof fn device_reports_are_read(id: u32, component: u32, state: u8)
    ensures
        ({
            let line = with_number(with_number("~DEVICE"@, id), component);
            &&& received(with_number(line, ACTION_PRESS)) == (ReceivedView::Device {
                integration_id: id,
                component,
                action: DeviceAction::Press,
            })
            &&& received(with_number(line, ACTION_RELEASE)) == (ReceivedView::Device {
                integration_id: id,
                component,
                action: DeviceAction::Release,
            })
            &&& received(with_number(line, ACTION_DOUBLE_CLICK)) == (ReceivedView::Device {
                integration_id: id,
                component,
                action: DeviceAction::DoubleClick,
            })
            &&& received(with_number(with_number(line, ACTION_LED), state as u32)) == (
            ReceivedView::Device { integration_id: id, component, action: DeviceAction::Led(state) })
        }),
{
    reveal_strlit("~DEVICE");
    reveal_strlit("~OUTPUT");
    reveal_strlit("~ERROR");
    reveal_strlit("GNET>");
    let first = with_number("~DEVICE"@, id);
    let line = with_number(first, component);
    let led = with_number(line, ACTION_LED);
    single_field("~DEVICE"@);
    added_numbers_are_found("~DEVICE"@, id);
    added_numbers_are_found(first, component);
    added_numbers_are_found(line, ACTION_PRESS);
    added_numbers_are_found(line, ACTION_RELEASE);
    added_numbers_are_found(line, ACTION_DOUBLE_CLICK);
    added_numbers_are_found(line, ACTION_LED);
    added_numbers_are_found(led, state as u32);
    assert("~DEVICE"@[1] == 'D' && "~OUTPUT"@[1] == 'O' && "~ERROR"@[1] == 'E' && "GNET>"@[0]
        == 'G');
    assert(with_number(line, ACTION_PRESS)[0] == '~');
    assert(with_number(line, ACTION_RELEASE)[0] == '~');
    assert(with_number(line, ACTION_DOUBLE_CLICK)[0] == '~');
    assert(with_number(led, state as u32)[0] == '~');
}

/// The report of any output is read as it was meant: its action number, and its value as a text.
pub proof fn output_reports_are_read(id: u32, action: u32, value: Seq<char>)
    requires
        comma_free(value),
    ensures
        received(with_field(with_number(with_number("~OUTPUT"@, id), action), value)) == (
        ReceivedView::Output { integration_id: id, action, value }),
{
    reveal_strlit("~OUTPUT");
    reveal_strlit("~ERROR");
    reveal_strlit("GNET>");
    let first = with_number("~OUTPUT"@, id);
    let line = with_number(first, action);
    single_field("~OUTPUT"@);
    added_numbers_are_found("~OUTPUT"@, id);
    added_numbers_are_found(first, action);
    added_fields_are_found(line, value);
    assert("~OUTPUT"@[1] == 'O' && "~ERROR"@[1] == 'E' && "GNET>"@[0] == 'G');
    assert(with_field(line, value)[0] == '~');
}

/// The report of any occupancy group is read as it was meant, by its state number.
pub proof fn occupancy_reports_are_read(id: u32, state: u32)
    ensures
        received(with_number(with_number(with_number("~GROUP"@, id), ACTION_OCCUPANCY), state)) == (
        ReceivedView::Group { integration_id: id, state: occupancy_state_of(state) }),
{
    reveal_strlit("~GROUP");
    reveal_strlit("~DEVICE");
    reveal_strlit("~OUTPUT");
    reveal_strlit("~ERROR");
    reveal_strlit("GNET>");
    let first = with_number("~GROUP"@, id);
    let line = with_number(first, ACTION_OCCUPANCY);
    single_field("~GROUP"@);
    added_numbers_are_found("~GROUP"@, id);
    added_numbers_are_found(first, ACTION_OCCUPANCY);
    added_numbers_are_found(line, state);
    assert("~GROUP"@[1] == 'G' && "~DEVICE"@[1] == 'D' && "~OUTPUT"@[1] == 'O' && "~ERROR"@[1]
        == 'E' && "GNET>"@[0] == 'G');
    assert(with_number(line, state)[0] == '~');
}

/// Fields are split at commas, and at nothing else: a comma begins a new field, any other character
/// belongs to the last one, and a line without characters is one empty field.
pub proof fn fields_are_split_at_commas(line: Seq<char>, c: char)
    ensures
        fields_of(seq![]) == seq![Seq::<char>::empty()],
        fields_of(line.push(',')) == fields_of(line).push(seq![]),
        c != ',' ==> {
            &&& fields_of(line.push(c)).len() == fields_of(line).len()
            &&& fields_of(line.push(c)).last() == fields_of(line).last().push(c)
            &&& forall|i: int|
                0 <= i < fields_of(line).len() - 1 ==> #[trigger] fields_of(line.push(c))[i]
                    == fields_of(line)[i]
        },
{
    there_is_a_field(line);
    assert(line.push(c).drop_last() =~= line);
    assert(line.push(',').drop_last() =~= line);
}

/// The line of a level holds the output, the action of a level, the level and the fade time, in
/// this order, with a comma between them.
pub proof fn level_lines_hold_their_fields(
    integration_id: u32,
    of: Level,
    fade_secs: Number,
    level: Seq<char>,
    fade: Seq<char>,
)
    ensures
        command_line(LipCommand::SetLevel { integration_id, level: of, fade_secs }, level, fade)
            == "#OUTPUT,"@ + decimal_digits(integration_id as nat) + ",1,"@ + level + ","@ + fade,
        comma_free(level) && comma_free(fade) ==> fields_of(
            command_line(LipCommand::SetLevel { integration_id, level: of, fade_secs }, level, fade),
        ) == seq!["#OUTPUT"@, decimal_digits(integration_id as nat), "1"@, level, fade],
{
    reveal_strlit("#OUTPUT");
    reveal_strlit("#OUTPUT,");
    reveal_strlit(",1,");
    reveal_strlit(",");
    reveal_strlit("1");
    decimals_are_positional(0, 1);
    let line = command_line(
        LipCommand::SetLevel { integration_id, level: of, fade_secs },
        level,
        fade,
    );
    assert(decimal_digits(1) =~= "1"@);
    assert(line =~= "#OUTPUT,"@ + decimal_digits(integration_id as nat) + ",1,"@ + level + ","@
        + fade);
    if comma_free(level) && comma_free(fade) {
        let first = with_number("#OUTPUT"@, integration_id);
        let second = with_number(first, 1);
        let third = with_field(second, level);
        single_field("#OUTPUT"@);
        added_numbers_are_found("#OUTPUT"@, integration_id);
        added_numbers_are_found(first, 1);
        added_fields_are_found(second, level);
        added_fields_are_found(third, fade);
        assert(fields_of(line) =~= seq![
            "#OUTPUT"@,
            decimal_digits(integration_id as nat),
            "1"@,
            level,
            fade,
        ]);
    }
}

/// The line of a shade movement holds the output and the movement, and nothing else.
pub proof fn shade_lines_hold_their_fields(
    integration_id: u32,
    action: u32,
    level: Seq<char>,
    fade: Seq<char>,
)
    ensures
        ({
            let line = command_line(
                LipCommand::ShadeAction { integration_id, action },
                level,
                fade,
            );
            &&& line == "#OUTPUT"@
                + ","@ + decimal_digits(integration_id as nat)
                + ","@ + decimal_digits(action as nat)
            &&& fields_of(line) == seq![
                "#OUTPUT"@,
                decimal_digits(integration_id as nat),
                decimal_digits(action as nat),
            ]
            &&& parsed_decimal(fields_of(line)[1]) == Some(integration_id)
            &&& parsed_decimal(fields_of(line)[2]) == Some(action)
        }),
{
    reveal_strlit("#OUTPUT");
    reveal_strlit(",");
    single_field("#OUTPUT"@);
    let first = with_number("#OUTPUT"@, integration_id);
    added_numbers_are_found("#OUTPUT"@, integration_id);
    decimals_are_read_back(integration_id);
    let second = with_number(first, action);
    added_numbers_are_found(first, action);
    decimals_are_read_back(action);
    assert(second =~= "#OUTPUT"@
        + ","@ + decimal_digits(integration_id as nat)
        + ","@ + decimal_digits(action as nat));
    assert(fields_of(second) =~= seq![
        "#OUTPUT"@,
        decimal_digits(integration_id as nat),
        decimal_digits(action as nat),
    ]);
}

/// The line that sets an LED holds the device, the component, the action of an LED and the state.
pub proof fn led_lines_hold_their_fields(
    integration_id: u32,
    component: u32,
    state: u8,
    level: Seq<char>,
    fade: Seq<char>,
)
    ensures
        ({
            let line = command_line(
                LipCommand::DeviceLed { integration_id, component, state },
                level,
                fade,
            );
            &&& line == "#DEVICE"@
                + ","@ + decimal_digits(integration_id as nat)
                + ","@ + decimal_digits(component as nat)
                + ","@ + decimal_digits(9u32 as nat)
                + ","@ + decimal_digits(state as nat)
            &&& fields_of(line) == seq![
                "#DEVICE"@,
                decimal_digits(integration_id as nat),
                decimal_digits(component as nat),
                decimal_digits(9u32 as nat),
                decimal_digits(state as nat),
            ]
            &&& parsed_decimal(fields_of(line)[1]) == Some(integration_id)
            &&& parsed_decimal(fields_of(line)[2]) == Some(component)
            &&& parsed_decimal(fields_of(line)[3]) == Some(9u32)
            &&& parsed_decimal(fields_of(line)[4]) == Some(state as u32)
        }),
{
    reveal_strlit("#DEVICE");
    reveal_strlit(",");
    single_field("#DEVICE"@);
    let first = with_number("#DEVICE"@, integration_id);
    added_numbers_are_found("#DEVICE"@, integration_id);
    decimals_are_read_back(integration_id);
    let second = with_number(first, component);
    added_numbers_are_found(first, component);
    decimals_are_read_back(component);
    let third = with_number(second, 9u32);
    added_numbers_are_found(second, 9u32);
    decimals_are_read_back(9u32);
    let fourth = with_number(third, state as u32);
    added_numbers_are_found(third, state as u32);
    decimals_are_read_back(state as u32);
    assert(fourth =~= "#DEVICE"@
        + ","@ + decimal_digits(integration_id as nat)
        + ","@ + decimal_digits(component as nat)
        + ","@ + decimal_digits(9u32 as nat)
        + ","@ + decimal_digits(state as nat));
    assert(fields_of(fourth) =~= seq![
        "#DEVICE"@,
        decimal_digits(integration_id as nat),
        decimal_digits(component as nat),
        decimal_digits(9u32 as nat),
        decimal_digits(state as nat),
    ]);
}

/// The line that acts on a component holds the device, the component and the action, so that
/// different actions are written as different lines.
pub proof fn button_lines_hold_their_fields(
    integration_id: u32,
    component: u32,
    action: u32,
    level: Seq<char>,
    fade: Seq<char>,
)
    ensures
        ({
            let line = command_line(
                LipCommand::DeviceAction { integration_id, component, action },
                level,
                fade,
            );
            &&& line == "#DEVICE"@
                + ","@ + decimal_digits(integration_id as nat)
                + ","@ + decimal_digits(component as nat)
                + ","@ + decimal_digits(action as nat)
            &&& fields_of(line) == seq![
                "#DEVICE"@,
                decimal_digits(integration_id as nat),
                decimal_digits(component as nat),
                decimal_digits(action as nat),
            ]
            &&& parsed_decimal(fields_of(line)[1]) == Some(integration_id)
            &&& parsed_decimal(fields_of(line)[2]) == Some(component)
            &&& parsed_decimal(fields_of(line)[3]) == Some(action)
        }),
{
    reveal_strlit("#DEVICE");
    reveal_strlit(",");
    single_field("#DEVICE"@);
    let first = with_number("#DEVICE"@, integration_id);
    added_numbers_are_found("#DEVICE"@, integration_id);
    decimals_are_read_back(integration_id);
    let second = with_number(first, component);
    added_numbers_are_found(first, component);
    decimals_are_read_back(component);
    let third = with_number(second, action);
    added_numbers_are_found(second, action);
    decimals_are_read_back(action);
    assert(third =~= "#DEVICE"@
        + ","@ + decimal_digits(integration_id as nat)
        + ","@ + decimal_digits(component as nat)
        + ","@ + decimal_digits(action as nat));
    assert(fields_of(third) =~= seq![
        "#DEVICE"@,
        decimal_digits(integration_id as nat),
        decimal_digits(component as nat),
        decimal_digits(action as nat),
    ]);
}

/// The line that asks for a level holds the output and the action of a level.
pub proof fn output_queries_hold_their_fields(
    integration_id: u32,
    level: Seq<char>,
    fade: Seq<char>,
)
    ensures
        ({
            let line = command_line(
                LipCommand::QueryOutput { integration_id },
                level,
                fade,
            );
            &&& line == "?OUTPUT"@
                + ","@ + decimal_digits(integration_id as nat)
                + ","@ + decimal_digits(1u32 as nat)
            &&& fields_of(line) == seq![
                "?OUTPUT"@,
                decimal_digits(integration_id as nat),
                decimal_digits(1u32 as nat),
            ]
            &&& parsed_decimal(fields_of(line)[1]) == Some(integration_id)
            &&& parsed_decimal(fields_of(line)[2]) == Some(1u32)
        }),
{
    reveal_strlit("?OUTPUT");
    reveal_strlit(",");
    single_field("?OUTPUT"@);
    let first = with_number("?OUTPUT"@, integration_id);
    added_numbers_are_found("?OUTPUT"@, integration_id);
    decimals_are_read_back(integration_id);
    let second = with_number(first, 1u32);
    added_numbers_are_found(first, 1u32);
    decimals_are_read_back(1u32);
    assert(second =~= "?OUTPUT"@
        + ","@ + decimal_digits(integration_id as nat)
        + ","@ + decimal_digits(1u32 as nat));
    assert(fields_of(second) =~= seq![
        "?OUTPUT"@,
        decimal_digits(integration_id as nat),
        decimal_digits(1u32 as nat),
    ]);
}

/// The line that asks for an occupancy state holds the group and the action of such a state.
pub proof fn group_queries_hold_their_fields(
    integration_id: u32,
    level: Seq<char>,
    fade: Seq<char>,
)
    ensures
        ({
            let line = command_line(
                LipCommand::QueryGroup { integration_id },
                level,
                fade,
            );
            &&& line == "?GROUP"@
                + ","@ + decimal_digits(integration_id as nat)
                + ","@ + decimal_digits(3u32 as nat)
            &&& fields_of(line) == seq![
                "?GROUP"@,
                decimal_digits(integration_id as nat),
                decimal_digits(3u32 as nat),
            ]
            &&& parsed_decimal(fields_of(line)[1]) == Some(integration_id)
            &&& parsed_decimal(fields_of(line)[2]) == Some(3u32)
        }),
{
    reveal_strlit("?GROUP");
    reveal_strlit(",");
    single_field("?GROUP"@);
    let first = with_number("?GROUP"@, integration_id);
    added_numbers_are_found("?GROUP"@, integration_id);
    decimals_are_read_back(integration_id);
    let second = with_number(first, 3u32);
    added_numbers_are_found(first, 3u32);
    decimals_are_read_back(3u32);
    assert(second =~= "?GROUP"@
        + ","@ + decimal_digits(integration_id as nat)
        + ","@ + decimal_digits(3u32 as nat));
    assert(fields_of(second) =~= seq![
        "?GROUP"@,
        decimal_digits(integration_id as nat),
        decimal_digits(3u32 as nat),
    ]);
}

/// The line that asks for an LED holds the device, the component and the action of an LED.
pub proof fn led_queries_hold_their_fields(
    integration_id: u32,
    component: u32,
    level: Seq<char>,
    fade: Seq<char>,
)
    ensures
        ({
            let line = command_line(
                LipCommand::QueryLed { integration_id, component },
                level,
                fade,
            );
            &&& line == "?DEVICE"@
                + ","@ + decimal_digits(integration_id as nat)
                + ","@ + decimal_digits(component as nat)
                + ","@ + decimal_digits(9u32 as nat)
            &&& fields_of(line) == seq![
                "?DEVICE"@,
                decimal_digits(integration_id as nat),
                decimal_digits(component as nat),
                decimal_digits(9u32 as nat),
            ]
            &&& parsed_decimal(fields_of(line)[1]) == Some(integration_id)
            &&& parsed_decimal(fields_of(line)[2]) == Some(component)
            &&& parsed_decimal(fields_of(line)[3]) == Some(9u32)
        }),
{
    reveal_strlit("?DEVICE");
    reveal_strlit(",");
    single_field("?DEVICE"@);
    let first = with_number("?DEVICE"@, integration_id);
    added_numbers_are_found("?DEVICE"@, integration_id);
    decimals_are_read_back(integration_id);
    let second = with_number(first, component);
    added_numbers_are_found(first, component);
    decimals_are_read_back(component);
    let third = with_number(second, 9u32);
    added_numbers_are_found(second, 9u32);
    decimals_are_read_back(9u32);
    assert(third =~= "?DEVICE"@
        + ","@ + decimal_digits(integration_id as nat)
        + ","@ + decimal_digits(component as nat)
        + ","@ + decimal_digits(9u32 as nat));
    assert(fields_of(third) =~= seq![
        "?DEVICE"@,
        decimal_digits(integration_id as nat),
        decimal_digits(component as nat),
        decimal_digits(9u32 as nat),
    ]);
}

proof fn prompts_are_single_fields()
    ensures
        fields_of("GNET>"@) == seq!["GNET>"@],
        "GNET>"@ != "~OUTPUT"@,
        "GNET>"@ != "~DEVICE"@,
        "GNET>"@ != "~GROUP"@,
        "GNET>"@ != "~ERROR"@,
        "~OUTPUT"@ != "~DEVICE"@,
        "~OUTPUT"@ != "~GROUP"@,
        "~OUTPUT"@ != "~ERROR"@,
        "~DEVICE"@ != "~GROUP"@,
        "~DEVICE"@ != "~ERROR"@,
        "~GROUP"@ != "~ERROR"@,
{
    reveal_strlit("GNET>");
    reveal_strlit("~OUTPUT");
    reveal_strlit("~DEVICE");
    reveal_strlit("~GROUP");
    reveal_strlit("~ERROR");
    single_field("GNET>"@);
    assert("GNET>"@[0] == 'G' && "~OUTPUT"@[0] == '~' && "~DEVICE"@[0] == '~' && "~GROUP"@[0] == '~'
        && "~ERROR"@[0] == '~');
    assert("~OUTPUT"@[1] == 'O' && "~DEVICE"@[1] == 'D' && "~GROUP"@[1] == 'G' && "~ERROR"@[1]
        == 'E');
}

/// A line about an output with at least three further fields reports its value, as it is written,
/// under the output and the action that the line names; if these are no numbers, it is unknown.
pub proof fn output_lines_are_read_by_their_fields(line: Seq<char>)
    requires
        fields_of(line).len() >= 4,
        fields_of(line)[0] == "~OUTPUT"@,
    ensures
        ({
            let f = fields_of(line);
            let id = parsed_decimal(f[1]);
            let action = parsed_decimal(f[2]);
            &&& id is Some && action is Some ==> received(line) == (ReceivedView::Output {
                integration_id: id->0,
                action: action->0,
                value: f[3],
            })
            &&& id is None || action is None ==> received(line) == ReceivedView::Unknown(line)
        }),
{
    prompts_are_single_fields();
}

/// A line about a device with at least three further fields reports a press (3), a release (4), a
/// double click (6) or, with a further field, the state of an LED (9), of the component that the
/// line names; any other is unknown.
pub proof fn device_lines_are_read_by_their_fields(line: Seq<char>)
    requires
        fields_of(line).len() >= 4,
        fields_of(line)[0] == "~DEVICE"@,
    ensures
        ({
            let f = fields_of(line);
            let id = parsed_decimal(f[1]);
            let component = parsed_decimal(f[2]);
            let action = parsed_decimal(f[3]);
            let numbers = id is Some && component is Some && action is Some;
            let led = numbers && action->0 == 9 && f.len() >= 5 && parsed_decimal(f[4]) is Some
                && parsed_decimal(f[4])->0 <= 255;
            &&& numbers && action->0 == 3 ==> received(line) == (ReceivedView::Device {
                integration_id: id->0,
                component: component->0,
                action: DeviceAction::Press,
            })
            &&& numbers && action->0 == 4 ==> received(line) == (ReceivedView::Device {
                integration_id: id->0,
                component: component->0,
                action: DeviceAction::Release,
            })
            &&& numbers && action->0 == 6 ==> received(line) == (ReceivedView::Device {
                integration_id: id->0,
                component: component->0,
                action: DeviceAction::DoubleClick,
            })
            &&& led ==> received(line) == (ReceivedView::Device {
                integration_id: id->0,
                component: component->0,
                action: DeviceAction::Led(parsed_decimal(f[4])->0 as u8),
            })
            &&& !led && !(numbers && (action->0 == 3 || action->0 == 4 || action->0 == 6))
                ==> received(line) == ReceivedView::Unknown(line)
        }),
{
    prompts_are_single_fields();
    if fields_of(line).len() >= 5 {
        assert(fields_of(line).skip(4)[0] == fields_of(line)[4]);
    }
}

/// A line about a group with at least three further fields reports, under the action of occupancy
/// (3), that it is occupied (3), unoccupied (4) or neither; any other is unknown.
pub proof fn group_lines_are_read_by_their_fields(line: Seq<char>)
    requires
        fields_of(line).len() >= 4,
        fields_of(line)[0] == "~GROUP"@,
    ensures
        ({
            let f = fields_of(line);
            let id = parsed_decimal(f[1]);
            let state = parsed_decimal(f[3]);
            let reads = id is Some && parsed_decimal(f[2]) == Some(3u32) && state is Some;
            &&& reads && state->0 == 3 ==> received(line) == (ReceivedView::Group {
                integration_id: id->0,
                state: OccupancyState::Occupied,
            })
            &&& reads && state->0 == 4 ==> received(line) == (ReceivedView::Group {
                integration_id: id->0,
                state: OccupancyState::Unoccupied,
            })
            &&& reads && state->0 != 3 && state->0 != 4 ==> received(line) == (
            ReceivedView::Group { integration_id: id->0, state: OccupancyState::Unknown })
            &&& !reads ==> received(line) == ReceivedView::Unknown(line)
        }),
{
    prompts_are_single_fields();
}

/// A prompt is a prompt, an error line with a further field reports it, and any other line that
/// neither starts as a report does nor has all of its fields is unknown.
pub proof fn other_lines_are_read_by_their_fields(line: Seq<char>)
    ensures
        received("GNET>"@) is Prompt,
        received(line) is Prompt ==> line == "GNET>"@,
        fields_of(line)[0] == "~ERROR"@ && fields_of(line).len() >= 2 ==> received(line)
            == ReceivedView::Error(fields_of(line)[1]),
        line != "GNET>"@ && fields_of(line)[0] == "~ERROR"@ && fields_of(line).len() < 2
            ==> received(line) == ReceivedView::Unknown(line),
        line != "GNET>"@ && fields_of(line)[0] != "~ERROR"@ && (fields_of(line).len() < 4 || (
        fields_of(line)[0] != "~OUTPUT"@ && fields_of(line)[0] != "~DEVICE"@ && fields_of(line)[0]
            != "~GROUP"@)) ==> received(line) == ReceivedView::Unknown(line),
{
    prompts_are_single_fields();
}

/// What was read becomes the message of the same kind with the same contents. A level is what comes
/// under the first action; a value that is no number makes the whole line an unknown one.
pub proof fn messages_say_what_was_read(read: Received, line: String, value: Option<Number>)
    ensures
        read matches Received::Output { integration_id, action, .. } ==> message_of(
            read,
            line,
            value,
        ) == (if value is None {
            LipMessage::Unknown(line)
        } else if action == 1 {
            LipMessage::Output { integration_id, action: OutputAction::ZoneLevel, value: value->0 }
        } else {
            LipMessage::Output {
                integration_id,
                action: OutputAction::Other(action),
                value: value->0,
            }
        }),
        read matches Received::Device { integration_id, component, action } ==> message_of(
            read,
            line,
            value,
        ) == (LipMessage::Device { integration_id, component, action }),
        read matches Received::Group { integration_id, state } ==> message_of(read, line, value)
            == (LipMessage::Group { integration_id, state }),
        read is Prompt ==> message_of(read, line, value) is Prompt,
        read matches Received::Error(s) ==> message_of(read, line, value) == LipMessage::Error(s),
        read matches Received::Unknown(s) ==> message_of(read, line, value)
            == LipMessage::Unknown(s),
{
}

/// The view of what was read keeps all of it.
pub proof fn received_views_keep_everything(read: Received)
    ensures
        read matches Received::Output { integration_id, action, value } ==> read@
            == (ReceivedView::Output { integration_id, action, value: value@ }),
        read matches Received::Device { integration_id, component, action } ==> read@
            == (ReceivedView::Device { integration_id, component, action }),
        read matches Received::Group { integration_id, state } ==> read@ == (ReceivedView::Group {
            integration_id,
            state,
        }),
        read is Prompt ==> read@ is Prompt,
        read matches Received::Error(s) ==> read@ == ReceivedView::Error(s@),
        read matches Received::Unknown(s) ==> read@ == ReceivedView::Unknown(s@),
{
}

/// Blanks in front of a line and behind it make no difference, be they spaces, tabs or parts of line
/// breaks.
pub proof fn blanks_make_no_difference(line: Seq<char>, c: char)
    requires
        c == ' ' || c == '\t' || c == '\r' || c == '\n',
    ensures
        stripped(seq![c] + line) == stripped(line),
        stripped(line.push(c)) == stripped(line),
    decreases line.len(),
{
    let before = seq![c] + line;
    assert(before.skip(1) =~= line);
    assert(trimmed(before) == trimmed(line));
    assert(stripped(before) == stripped(line));
    trailing_blanks_are_trimmed(line, c);
    assert(stripped(line.push(c)) == stripped(line));
}

proof fn trailing_blanks_are_trimmed(line: Seq<char>, c: char)
    requires
        is_blank(c),
    ensures
        trimmed(line.push(c)) == trimmed(line),
    decreases line.len(),
{
    let after = line.push(c);
    if line.len() == 0 {
        assert(after.skip(1) =~= line);
    } else if is_blank(line[0]) {
        assert(after.skip(1) =~= line.skip(1).push(c));
        trailing_blanks_are_trimmed(line.skip(1), c);
    } else {
        assert(after.drop_last() =~= line);
    }
}

/// A line without blanks around it that does not begin with a prompt is left as it is, and so is a
/// prompt alone.
pub proof fn plain_lines_are_left_alone(line: Seq<char>)
    requires
        line.len() > 0 ==> line[0] != ' ' && line[0] != '\t' && line[0] != '\r' && line[0] != '\n',
        line.len() > 0 ==> line.last() != ' ' && line.last() != '\t' && line.last() != '\r'
            && line.last() != '\n',
        line.len() <= 5 || line.take(5) != "GNET>"@,
    ensures
        stripped(line) == line,
{
}

} // verus!
