//! What holds of hold timers: who starts and stops them, and when they are due.

use crate::action::ActionView;
use crate::bridge::{
    after_device_event, after_event, button_event, cancel_timer, device_event_actions,
    event_leads_to, hold_actions, BridgeView, Component, Event,
};
use crate::laws::{after_events, led_reports_are_published_nowhere_else};
use crate::protocol::{DeviceAction, LipMessage};
use vstd::prelude::*;

verus! {

/// The hold timer of a button runs after its press, and neither after its release nor after its
/// double click; the timers of other buttons are left alone.
pub proof fn hold_timer_follows_the_button(b: BridgeView, c: Component, other: Component)
    requires
        b.button_of_known_device(c),
        other != c,
    ensures
        after_device_event(b, c, DeviceAction::Press).pending.contains(c),
        !after_device_event(b, c, DeviceAction::Release).pending.contains(c),
        !after_device_event(b, c, DeviceAction::DoubleClick).pending.contains(c),
        after_device_event(b, c, DeviceAction::Press).pending.contains(other)
            == b.pending.contains(other),
        after_device_event(b, c, DeviceAction::Release).pending.contains(other)
            == b.pending.contains(other),
        after_device_event(b, c, DeviceAction::DoubleClick).pending.contains(other)
            == b.pending.contains(other),
{
}

/// A press that ends before its hold timer runs out stops the timer: press and release are
/// published, and no timer is left behind that was not there before.
pub proof fn short_press_stops_its_timer(b: BridgeView, c: Component)
    requires
        b.button_of_known_device(c),
    ensures
        ({
            let hc_id = b.devices[c.0].hc_id@;
            let pressed = after_device_event(b, c, DeviceAction::Press);
            &&& device_event_actions(b, c, DeviceAction::Press) == seq![
                button_event(hc_id, c.1, "press"@),
                ActionView::StartHoldTimer {
                    keypad_id: c.0,
                    button: c.1,
                    after_ms: b.hold_threshold_ms(),
                },
            ]
            &&& device_event_actions(pressed, c, DeviceAction::Release) == seq![
                ActionView::CancelHoldTimer { keypad_id: c.0, button: c.1 },
                button_event(hc_id, c.1, "release"@),
            ]
            &&& after_device_event(pressed, c, DeviceAction::Release).pending == b.pending.remove(c)
        }),
{
    let pressed = after_device_event(b, c, DeviceAction::Press);
    assert(device_event_actions(pressed, c, DeviceAction::Release) =~= seq![
        ActionView::CancelHoldTimer { keypad_id: c.0, button: c.1 },
        button_event(b.devices[c.0].hc_id@, c.1, "release"@),
    ]);
    assert(after_device_event(pressed, c, DeviceAction::Release).pending =~= b.pending.remove(c));
}

/// A press whose hold timer runs out publishes a hold, and its release then finds no timer.
pub proof fn long_press_publishes_a_hold(b: BridgeView, c: Component)
    requires
        b.button_of_known_device(c),
    ensures
        ({
            let hc_id = b.devices[c.0].hc_id@;
            let pressed = after_device_event(b, c, DeviceAction::Press);
            let held = after_event(pressed, Event::HoldFired { keypad_id: c.0, button: c.1 });
            &&& hold_actions(pressed, c) == seq![
                ActionView::CancelHoldTimer { keypad_id: c.0, button: c.1 },
                button_event(hc_id, c.1, "hold"@),
            ]
            &&& !held.pending.contains(c)
            &&& device_event_actions(held, c, DeviceAction::Release) == seq![
                button_event(hc_id, c.1, "release"@),
            ]
        }),
{
    let hc_id = b.devices[c.0].hc_id@;
    let pressed = after_device_event(b, c, DeviceAction::Press);
    let held = after_event(pressed, Event::HoldFired { keypad_id: c.0, button: c.1 });
    assert(hold_actions(pressed, c) =~= seq![
        ActionView::CancelHoldTimer { keypad_id: c.0, button: c.1 },
        button_event(hc_id, c.1, "hold"@),
    ]);
    assert(device_event_actions(held, c, DeviceAction::Release) =~= seq![
        button_event(hc_id, c.1, "release"@),
    ]);
}

/// No hold timer survives a lost connection.
pub proof fn lost_connections_stop_all_timers(b: BridgeView)
    ensures
        after_event(b, Event::ConnectionLost).pending == Set::<Component>::empty(),
{
}

/// Every press starts the hold timer of its button with the configured threshold, also where one
/// is running already: the later press starts it anew.
pub proof fn every_press_starts_its_timer(b: BridgeView, c: Component)
    requires
        b.button_of_known_device(c),
    ensures
        device_event_actions(b, c, DeviceAction::Press).contains(
            ActionView::StartHoldTimer {
                keypad_id: c.0,
                button: c.1,
                after_ms: b.lutron_cfg.hold_threshold_ms,
            },
        ),
{
    let actions = device_event_actions(b, c, DeviceAction::Press);
    assert(actions[1] == (ActionView::StartHoldTimer {
        keypad_id: c.0,
        button: c.1,
        after_ms: b.lutron_cfg.hold_threshold_ms,
    }));
}

/// Whether an action starts or stops the hold timer of a button.
pub open spec fn concerns_timer(action: ActionView, c: Component) -> bool {
    match action {
        ActionView::StartHoldTimer { keypad_id, button, .. } => (keypad_id, button) == c,
        ActionView::CancelHoldTimer { keypad_id, button } => (keypad_id, button) == c,
        ActionView::CancelAllHoldTimers => true,
        _ => false,
    }
}

/// Whether an event is a report of this button, or of its hold timer, or the loss of the
/// connection.
pub open spec fn concerns_button(event: Event, c: Component) -> bool {
    match event {
        Event::Message(LipMessage::Device { integration_id, component, .. }) => (
            integration_id,
            component,
        ) == c,
        Event::HoldFired { keypad_id, button } => (keypad_id, button) == c,
        Event::ConnectionLost => true,
        _ => false,
    }
}

proof fn led_reports_concern_no_timer(b: BridgeView, at: Component, state: u8, c: Component)
    ensures
        forall|i: int|
            0 <= i < device_event_actions(b, at, DeviceAction::Led(state)).len()
                ==> !concerns_timer(
                #[trigger] device_event_actions(b, at, DeviceAction::Led(state))[i],
                c,
            ),
{
    let all = device_event_actions(b, at, DeviceAction::Led(state));
    assert forall|i: int| 0 <= i < all.len() implies !concerns_timer(#[trigger] all[i], c) by {
        assert(all.contains(all[i]));
        led_reports_are_published_nowhere_else(b, at, state, all[i]);
    }
}

/// Nothing but its own button, its own running out and the loss of the connection starts or stops
/// a hold timer: reports of other components, commands and all else leave it alone.
pub proof fn timers_are_left_to_their_buttons(
    b: BridgeView,
    event: Event,
    actions: Seq<ActionView>,
    c: Component,
)
    requires
        event_leads_to(b, event, actions),
        !concerns_button(event, c),
    ensures
        forall|i: int| 0 <= i < actions.len() ==> !concerns_timer(#[trigger] actions[i], c),
        after_event(b, event).pending.contains(c) == b.pending.contains(c),
{
    if let Event::Message(
        LipMessage::Device { integration_id, component, action: DeviceAction::Led(state) },
    ) = event {
        led_reports_concern_no_timer(b, (integration_id, component), state, c);
    }
}

/// The running hold timers, by the time at which each is due, after these actions were done in
/// order at some time. Times are in milliseconds.
pub open spec fn timers_after(
    running: Map<Component, int>,
    actions: Seq<ActionView>,
    now: int,
) -> Map<Component, int>
    decreases actions.len(),
{
    if actions.len() == 0 {
        running
    } else {
        let before = timers_after(running, actions.drop_last(), now);
        match actions.last() {
            ActionView::StartHoldTimer { keypad_id, button, after_ms } => before.insert(
                (keypad_id, button),
                now + after_ms,
            ),
            ActionView::CancelHoldTimer { keypad_id, button } => before.remove(
                (keypad_id, button),
            ),
            ActionView::CancelAllHoldTimers => Map::empty(),
            _ => before,
        }
    }
}

proof fn other_actions_keep_a_timer(
    running: Map<Component, int>,
    actions: Seq<ActionView>,
    now: int,
    c: Component,
)
    requires
        forall|i: int| 0 <= i < actions.len() ==> !concerns_timer(#[trigger] actions[i], c),
    ensures
        timers_after(running, actions, now).contains_key(c) == running.contains_key(c),
        running.contains_key(c) ==> timers_after(running, actions, now)[c] == running[c],
    decreases actions.len(),
{
    if actions.len() > 0 {
        let before = actions.drop_last();
        assert forall|i: int| 0 <= i < before.len() implies !concerns_timer(
            #[trigger] before[i],
            c,
        ) by {
            assert(before[i] == actions[i]);
        }
        assert(!concerns_timer(actions[actions.len() - 1], c));
        other_actions_keep_a_timer(running, before, now, c);
    }
}

/// The bridge knows which hold timers run: whoever starts and stops them as it asks has running
/// exactly those that it holds for running, after every event.
pub proof fn timers_run_as_the_bridge_knows(
    b: BridgeView,
    event: Event,
    actions: Seq<ActionView>,
    running: Map<Component, int>,
    now: int,
)
    requires
        event_leads_to(b, event, actions),
        running.dom() == b.pending,
    ensures
        timers_after(running, actions, now).dom() == after_event(b, event).pending,
{
    let timers = timers_after(running, actions, now);
    assert forall|c: Component| timers.contains_key(c) == after_event(b, event).pending.contains(
        c,
    ) by {
        if concerns_button(event, c) {
            reveal_with_fuel(timers_after, 3);
            match event {
                Event::HoldFired { .. } => {
                    if b.devices.contains_key(c.0) {
                        assert(actions.drop_last() =~= cancel_timer(b, c));
                    }
                    assert(cancel_timer(b, c).len() > 0 ==> cancel_timer(b, c).drop_last()
                        =~= seq![]);
                },
                Event::Message(LipMessage::Device { action, .. }) => match action {
                    DeviceAction::Led(state) => {
                        led_reports_concern_no_timer(b, c, state, c);
                        other_actions_keep_a_timer(running, actions, now, c);
                    },
                    DeviceAction::Press => {
                        if b.button_of_known_device(c) {
                            assert(actions.drop_last().drop_last() =~= seq![]);
                        }
                    },
                    _ => {
                        if b.button_of_known_device(c) {
                            assert(actions.drop_last() =~= cancel_timer(b, c));
                            assert(cancel_timer(b, c).len() > 0 ==> cancel_timer(
                                b,
                                c,
                            ).drop_last() =~= seq![]);
                        }
                    },
                },
                _ => {},
            }
        } else {
            timers_are_left_to_their_buttons(b, event, actions, c);
            other_actions_keep_a_timer(running, actions, now, c);
        }
    }
    assert(timers.dom() =~= after_event(b, event).pending);
}

/// An event at its time, and what the bridge asked for in answer to it.
pub struct Happening {
    pub at: int,
    pub event: Event,
    pub actions: Seq<ActionView>,
}

/// The state after these happenings.
pub open spec fn state_after(b: BridgeView, happenings: Seq<Happening>) -> BridgeView
    decreases happenings.len(),
{
    if happenings.len() == 0 {
        b
    } else {
        after_event(state_after(b, happenings.drop_last()), happenings.last().event)
    }
}

/// The running hold timers after these happenings.
pub open spec fn timers_then(running: Map<Component, int>, happenings: Seq<Happening>) -> Map<
    Component,
    int,
>
    decreases happenings.len(),
{
    if happenings.len() == 0 {
        running
    } else {
        timers_after(
            timers_then(running, happenings.drop_last()),
            happenings.last().actions,
            happenings.last().at,
        )
    }
}

/// Whether the actions of each happening are what the bridge asks for in answer to its event.
pub open spec fn answered(b: BridgeView, happenings: Seq<Happening>) -> bool
    decreases happenings.len(),
{
    happenings.len() == 0 || {
        &&& answered(b, happenings.drop_last())
        &&& event_leads_to(
            state_after(b, happenings.drop_last()),
            happenings.last().event,
            happenings.last().actions,
        )
    }
}

/// Whatever happens, the hold timers that run are those that the bridge holds for running.
pub proof fn timers_always_run_as_the_bridge_knows(
    b: BridgeView,
    running: Map<Component, int>,
    happenings: Seq<Happening>,
)
    requires
        running.dom() == b.pending,
        answered(b, happenings),
    ensures
        timers_then(running, happenings).dom() == state_after(b, happenings).pending,
    decreases happenings.len(),
{
    if happenings.len() > 0 {
        let before = happenings.drop_last();
        timers_always_run_as_the_bridge_knows(b, running, before);
        timers_run_as_the_bridge_knows(
            state_after(b, before),
            happenings.last().event,
            happenings.last().actions,
            timers_then(running, before),
            happenings.last().at,
        );
    }
}

/// A timer is due when its threshold has passed since the press, and stays due then while nothing
/// happens to its button and the connection lasts, whatever other buttons do. It makes no
/// difference whether a timer of the button was running before the press.
pub proof fn holds_are_due_after_the_threshold(
    b: BridgeView,
    running: Map<Component, int>,
    c: Component,
    pressed_at: int,
    happenings: Seq<Happening>,
)
    requires
        b.button_of_known_device(c),
        answered(after_device_event(b, c, DeviceAction::Press), happenings),
        forall|i: int|
            0 <= i < happenings.len() ==> !concerns_button((#[trigger] happenings[i]).event, c),
    ensures
        ({
            let timers = timers_then(
                timers_after(running, device_event_actions(b, c, DeviceAction::Press), pressed_at),
                happenings,
            );
            &&& timers.contains_key(c)
            &&& timers[c] == pressed_at + b.lutron_cfg.hold_threshold_ms
        }),
    decreases happenings.len(),
{
    let press = device_event_actions(b, c, DeviceAction::Press);
    if happenings.len() == 0 {
        reveal_with_fuel(timers_after, 3);
    } else {
        let before = happenings.drop_last();
        let last = happenings.last();
        assert forall|i: int| 0 <= i < before.len() implies !concerns_button(
            (#[trigger] before[i]).event,
            c,
        ) by {
            assert(before[i] == happenings[i]);
        }
        assert(!concerns_button(happenings[happenings.len() - 1].event, c));
        holds_are_due_after_the_threshold(b, running, c, pressed_at, before);
        let state = state_after(after_device_event(b, c, DeviceAction::Press), before);
        timers_are_left_to_their_buttons(state, last.event, last.actions, c);
        other_actions_keep_a_timer(
            timers_then(timers_after(running, press, pressed_at), before),
            last.actions,
            last.at,
            c,
        );
    }
}

/// After a release, a double click or a hold, no timer of the button is due any more.
pub proof fn ended_presses_are_not_due(
    b: BridgeView,
    running: Map<Component, int>,
    c: Component,
    now: int,
)
    requires
        b.button_of_known_device(c),
        running.dom() == b.pending,
    ensures
        !timers_after(
            running,
            device_event_actions(b, c, DeviceAction::Release),
            now,
        ).contains_key(c),
        !timers_after(
            running,
            device_event_actions(b, c, DeviceAction::DoubleClick),
            now,
        ).contains_key(c),
        !timers_after(running, hold_actions(b, c), now).contains_key(c),
{
    let released = LipMessage::Device {
        integration_id: c.0,
        component: c.1,
        action: DeviceAction::Release,
    };
    let clicked = LipMessage::Device {
        integration_id: c.0,
        component: c.1,
        action: DeviceAction::DoubleClick,
    };
    let release = device_event_actions(b, c, DeviceAction::Release);
    let click = device_event_actions(b, c, DeviceAction::DoubleClick);
    let fired = Event::HoldFired { keypad_id: c.0, button: c.1 };
    timers_run_as_the_bridge_knows(b, Event::Message(released), release, running, now);
    timers_run_as_the_bridge_knows(b, Event::Message(clicked), click, running, now);
    timers_run_as_the_bridge_knows(b, fired, hold_actions(b, c), running, now);
    assert(!after_event(b, Event::Message(released)).pending.contains(c));
    assert(!after_event(b, Event::Message(clicked)).pending.contains(c));
    assert(!after_event(b, fired).pending.contains(c));
}

/// Whether only hold timers run out that are running.
pub open spec fn only_running_timers_fire(b: BridgeView, events: Seq<Event>) -> bool
    decreases events.len(),
{
    events.len() == 0 || {
        &&& only_running_timers_fire(b, events.drop_last())
        &&& events.last() matches Event::HoldFired { keypad_id, button } ==> after_events(
            b,
            events.drop_last(),
        ).pending.contains((keypad_id, button))
    }
}

/// How many of these events are presses of a button.
pub open spec fn presses(events: Seq<Event>, c: Component) -> nat
    decreases events.len(),
{
    if events.len() == 0 {
        0
    } else {
        presses(events.drop_last(), c) + match events.last() {
            Event::Message(
                LipMessage::Device { integration_id, component, action: DeviceAction::Press },
            ) if (integration_id, component) == c => 1nat,
            _ => 0,
        }
    }
}

/// How many of these events are hold timers of a button running out.
pub open spec fn holds(events: Seq<Event>, c: Component) -> nat
    decreases events.len(),
{
    if events.len() == 0 {
        0
    } else {
        holds(events.drop_last(), c) + match events.last() {
            Event::HoldFired { keypad_id, button } if (keypad_id, button) == c => 1nat,
            _ => 0,
        }
    }
}

/// A press is held at most once: there are no more holds of a button than presses, and each needs
/// a press of its own. So after a release, a double click or a hold there is none until the next
/// press.
pub proof fn one_hold_per_press(b: BridgeView, events: Seq<Event>, c: Component)
    requires
        only_running_timers_fire(b, events),
    ensures
        ({
            let left: nat = if after_events(b, events).pending.contains(c) {
                1
            } else {
                0
            };
            let there: nat = if b.pending.contains(c) {
                1
            } else {
                0
            };
            holds(events, c) + left <= presses(events, c) + there
        }),
    decreases events.len(),
{
    if events.len() > 0 {
        one_hold_per_press(b, events.drop_last(), c);
    }
}

/// The timer of a press keeps running while nothing happens to its button and the connection
/// lasts, whatever other buttons do; when it runs out, the hold is published.
pub proof fn undisturbed_timers_keep_running(b: BridgeView, events: Seq<Event>, c: Component)
    requires
        b.button_of_known_device(c),
        b.pending.contains(c),
        forall|i: int| 0 <= i < events.len() ==> !concerns_button(#[trigger] events[i], c),
    ensures
        ({
            let later = after_events(b, events);
            &&& later.pending.contains(c)
            &&& later.devices == b.devices
            &&& hold_actions(later, c).contains(
                button_event(b.devices[c.0].hc_id@, c.1, "hold"@),
            )
        }),
    decreases events.len(),
{
    if events.len() > 0 {
        let before = events.drop_last();
        assert forall|i: int| 0 <= i < before.len() implies !concerns_button(
            #[trigger] before[i],
            c,
        ) by {
            assert(before[i] == events[i]);
        }
        assert(!concerns_button(events[events.len() - 1], c));
        undisturbed_timers_keep_running(b, before, c);
    }
    let actions = hold_actions(after_events(b, events), c);
    assert(actions[actions.len() - 1] == button_event(b.devices[c.0].hc_id@, c.1, "hold"@));
}

} // verus!
