//! What the bridge asks its surroundings to do.

use crate::patch::{patch_view, Attribute, AttributeView};
use crate::protocol::LipCommand;
use vstd::prelude::*;

verus! {

/// One thing to do. Several are done in order.
#[derive(Clone, Debug)]
pub enum Action {
    /// Publish the state of a device.
    PublishState { hc_id: String, patch: Vec<Attribute> },
    /// Publish some attributes of a device and leave the others as they are.
    PublishPartial { hc_id: String, patch: Vec<Attribute> },
    /// Start the hold timer of a button, in place of one that is still running.
    StartHoldTimer { keypad_id: u32, button: u32, after_ms: u64 },
    /// Stop the hold timer of a button.
    CancelHoldTimer { keypad_id: u32, button: u32 },
    /// Stop all hold timers.
    CancelAllHoldTimers,
    /// Send a command to the repeater.
    Send(LipCommand),
    /// Wait before the next thing.
    Pause { millis: u64 },
    /// Send a keepalive to the repeater.
    SendKeepalive,
}

/// An `Action`, with texts and patches as sequences.
pub enum ActionView {
    PublishState { hc_id: Seq<char>, patch: Seq<AttributeView> },
    PublishPartial { hc_id: Seq<char>, patch: Seq<AttributeView> },
    StartHoldTimer { keypad_id: u32, button: u32, after_ms: u64 },
    CancelHoldTimer { keypad_id: u32, button: u32 },
    CancelAllHoldTimers,
    Send(LipCommand),
    Pause { millis: u64 },
    SendKeepalive,
}

impl View for Action {
    type V = ActionView;

    open spec fn view(&self) -> ActionView {
        match self {
            Action::PublishState { hc_id, patch } => ActionView::PublishState {
                hc_id: hc_id@,
                patch: patch_view(patch@),
            },
            Action::PublishPartial { hc_id, patch } => ActionView::PublishPartial {
                hc_id: hc_id@,
                patch: patch_view(patch@),
            },
            Action::StartHoldTimer { keypad_id, button, after_ms } => ActionView::StartHoldTimer {
                keypad_id: *keypad_id,
                button: *button,
                after_ms: *after_ms,
            },
            Action::CancelHoldTimer { keypad_id, button } => ActionView::CancelHoldTimer {
                keypad_id: *keypad_id,
                button: *button,
            },
            Action::CancelAllHoldTimers => ActionView::CancelAllHoldTimers,
            Action::Send(command) => ActionView::Send(*command),
            Action::Pause { millis } => ActionView::Pause { millis: *millis },
            Action::SendKeepalive => ActionView::SendKeepalive,
        }
    }
}

/// Actions by their views.
pub open spec fn actions_view(actions: Seq<Action>) -> Seq<ActionView> {
    actions.map_values(|a: Action| a@)
}

/// Sending commands one after the other.
pub open spec fn sends(commands: Seq<LipCommand>) -> Seq<ActionView> {
    commands.map_values(|c: LipCommand| ActionView::Send(c))
}

/// Sends commands one after the other.
pub fn send_all(commands: &Vec<LipCommand>) -> (r: Vec<Action>)
    ensures
        actions_view(r@) == sends(commands@),
{
    let mut actions: Vec<Action> = Vec::new();
    let mut i: usize = 0;
    while i < commands.len()
        invariant
            i <= commands.len(),
            actions@.len() == i,
            forall|j: int|
                0 <= j < i ==> (#[trigger] actions@[j])@ == ActionView::Send(commands@[j]),
        decreases commands.len() - i,
    {
        actions.push(Action::Send(commands[i]));
        i += 1;
    }
    assert(actions_view(actions@) =~= sends(commands@));
    actions
}

/// The view of an action keeps what is done, and to whom.
pub proof fn action_views_keep_everything(action: Action)
    ensures
        action matches Action::PublishState { hc_id, patch } ==> action@
            == (ActionView::PublishState { hc_id: hc_id@, patch: patch_view(patch@) }),
        action matches Action::PublishPartial { hc_id, patch } ==> action@
            == (ActionView::PublishPartial { hc_id: hc_id@, patch: patch_view(patch@) }),
        action matches Action::StartHoldTimer { keypad_id, button, after_ms } ==> action@
            == (ActionView::StartHoldTimer { keypad_id, button, after_ms }),
        action matches Action::CancelHoldTimer { keypad_id, button } ==> action@
            == (ActionView::CancelHoldTimer { keypad_id, button }),
        action is CancelAllHoldTimers ==> action@ is CancelAllHoldTimers,
        action matches Action::Send(command) ==> action@ == ActionView::Send(command),
        action matches Action::Pause { millis } ==> action@ == (ActionView::Pause { millis }),
        action is SendKeepalive ==> action@ is SendKeepalive,
{
}

/// The view of several actions keeps every one in its place.
pub proof fn action_views_keep_the_order(actions: Seq<Action>, i: int)
    requires
        0 <= i < actions.len(),
    ensures
        actions_view(actions).len() == actions.len(),
        actions_view(actions)[i] == actions[i]@,
{
}

/// Every command is sent once, in its turn.
pub proof fn commands_are_sent_in_turn(commands: Seq<LipCommand>)
    ensures
        sends(commands).len() == commands.len(),
        forall|i: int|
            0 <= i < commands.len() ==> #[trigger] sends(commands)[i] == ActionView::Send(
                commands[i],
            ),
{
}

} // verus!
