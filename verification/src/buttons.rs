use vstd::prelude::*;

use crate::keys::{Key, KeyEvent};

verus! {

/// What the shell remembers of the Home and Power buttons.
#[derive(Debug)]
pub struct ButtonState {
    /// The last short press or release of the Home button.
    pub last_home: Option<KeyEvent>,
    /// The last short press or release of the Power button.
    pub last_power: Option<KeyEvent>,
    /// Whether the power-options overlay has been shown.  Once shown it stays
    /// up until the user dismisses it in the overlay itself.
    pub power_overlay_visible: bool,
}

/// The answer to one button event.
#[derive(Clone, Copy, Debug, PartialEq, Eq, Structural)]
pub struct ButtonResponse {
    /// The event belongs to the Home or Power button and was consumed.
    pub handled: bool,
    /// The caller must open the power-options overlay now.
    pub launch_overlay: bool,
}

/// The Home and Power buttons are handled for short presses, long presses
/// and releases; everything else is left to other handlers.
pub open spec fn is_button_event(event: KeyEvent) -> bool {
    match event {
        KeyEvent::Pressed(Key::Home) | KeyEvent::Pressing(Key::Home) | KeyEvent::Released(Key::Home) => true,
        KeyEvent::Pressed(Key::Power) | KeyEvent::Pressing(Key::Power) | KeyEvent::Released(Key::Power) => true,
        _ => false,
    }
}

impl ButtonState {
    /// The state after `event`: short presses and releases are remembered
    /// per button, and a long press of Power marks the overlay as shown.
    pub open spec fn after(self, event: KeyEvent) -> ButtonState {
        match event {
            KeyEvent::Pressed(Key::Home) | KeyEvent::Released(Key::Home) =>
                ButtonState { last_home: Some(event), ..self },
            KeyEvent::Pressed(Key::Power) | KeyEvent::Released(Key::Power) =>
                ButtonState { last_power: Some(event), ..self },
            KeyEvent::Pressing(Key::Power) =>
                ButtonState { power_overlay_visible: true, ..self },
            _ => self,
        }
    }

    /// A long press of Power opens the overlay unless it is already shown.
    pub open spec fn launches_overlay(self, event: KeyEvent) -> bool {
        event == KeyEvent::Pressing(Key::Power) && !self.power_overlay_visible
    }

    /// A fresh state: nothing seen, no overlay.
    pub open spec fn initial() -> ButtonState {
        ButtonState { last_home: None, last_power: None, power_overlay_visible: false }
    }

    /// Updates the state for one hardware key event and tells the caller
    /// whether the event was consumed and whether to open the power overlay.
    pub fn handle_event(&mut self, event: KeyEvent) -> (response: ButtonResponse)
        ensures
            *final(self) == old(self).after(event),
            response.handled == is_button_event(event),
            response.launch_overlay == old(self).launches_overlay(event),
            !response.handled ==> *final(self) == *old(self),
    {
        let mut launch_overlay = false;
        let handled = match event {
            KeyEvent::Pressed(Key::Home) => {
                self.last_home = Some(event);
                true
            },
            KeyEvent::Pressing(Key::Home) => true,
            KeyEvent::Released(Key::Home) => {
                self.last_home = Some(event);
                true
            },
            KeyEvent::Pressed(Key::Power) => {
                self.last_power = Some(event);
                true
            },
            KeyEvent::Pressing(Key::Power) => {
                if !self.power_overlay_visible {
                    self.power_overlay_visible = true;
                    launch_overlay = true;
                }
                true
            },
            KeyEvent::Released(Key::Power) => {
                self.last_power = Some(event);
                true
            },
            _ => false,
        };
        ButtonResponse { handled, launch_overlay }
    }
}

/// The state after handling every event of `events` in order.
pub open spec fn run(state: ButtonState, events: Seq<KeyEvent>) -> ButtonState
    decreases events.len(),
{
    if events.len() == 0 {
        state
    } else {
        run(state.after(events[0]), events.drop_first())
    }
}

/// How many times handling `events` in order asks to open the overlay.
pub open spec fn overlay_launches(state: ButtonState, events: Seq<KeyEvent>) -> nat
    decreases events.len(),
{
    if events.len() == 0 {
        0
    } else {
        (if state.launches_overlay(events[0]) { 1nat } else { 0nat })
            + overlay_launches(state.after(events[0]), events.drop_first())
    }
}

/// Once the power overlay is shown, no sequence of button events hides it.
pub proof fn lemma_overlay_stays_visible(state: ButtonState, events: Seq<KeyEvent>)
    requires
        state.power_overlay_visible,
    ensures
        run(state, events).power_overlay_visible,
    decreases events.len(),
{
    if events.len() > 0 {
        lemma_overlay_stays_visible(state.after(events[0]), events.drop_first());
    }
}

/// Over any sequence of button events the overlay is opened at most once,
/// and never when it is already shown.
pub proof fn lemma_overlay_opens_at_most_once(state: ButtonState, events: Seq<KeyEvent>)
    ensures
        overlay_launches(state, events) <= 1,
        state.power_overlay_visible ==> overlay_launches(state, events) == 0,
    decreases events.len(),
{
    if events.len() > 0 {
        let next = state.after(events[0]);
        lemma_overlay_opens_at_most_once(next, events.drop_first());
        if state.launches_overlay(events[0]) {
            assert(next.power_overlay_visible);
        }
    }
}

/// Events that no button handler consumes (other keys, unclassified events)
/// leave the state as it was, however many of them arrive.
pub proof fn lemma_unhandled_events_change_nothing(state: ButtonState, events: Seq<KeyEvent>)
    requires
        forall|i: int| 0 <= i < events.len() ==> !is_button_event(#[trigger] events[i]),
    ensures
        run(state, events) == state,
    decreases events.len(),
{
    if events.len() > 0 {
        assert(!is_button_event(events[0]));
        let rest = events.drop_first();
        assert forall|i: int| 0 <= i < rest.len() implies !is_button_event(#[trigger] rest[i]) by {
            assert(rest[i] == events[i + 1]);
        }
        lemma_unhandled_events_change_nothing(state, rest);
    }
}

/// The last short press or release of `key` in `events`, or `before` when
/// there is none.
pub open spec fn latest_press_or_release(before: Option<KeyEvent>, events: Seq<KeyEvent>, key: Key) -> Option<KeyEvent>
    decreases events.len(),
{
    if events.len() == 0 {
        before
    } else if events.last() == KeyEvent::Pressed(key) || events.last() == KeyEvent::Released(key) {
        Some(events.last())
    } else {
        latest_press_or_release(before, events.drop_last(), key)
    }
}

/// Handling one more event after a sequence is handling the longer sequence.
pub proof fn lemma_run_push(state: ButtonState, events: Seq<KeyEvent>, event: KeyEvent)
    ensures
        run(state, events.push(event)) == run(state, events).after(event),
    decreases events.len(),
{
    if events.len() > 0 {
        assert(events.push(event).drop_first() =~= events.drop_first().push(event));
        assert(events.push(event)[0] == events[0]);
        lemma_run_push(state.after(events[0]), events.drop_first(), event);
    } else {
        assert(events.push(event).drop_first() =~= Seq::<KeyEvent>::empty());
        assert(run(state.after(event), Seq::<KeyEvent>::empty()) == state.after(event));
        assert(events.push(event)[0] == event);
    }
}

/// After any sequence of events the state remembers, for Home and for
/// Power, the latest short press or release of that button (or what it
/// remembered before, when the sequence has none).
pub proof fn lemma_remembers_latest_press_or_release(state: ButtonState, events: Seq<KeyEvent>)
    ensures
        run(state, events).last_home == latest_press_or_release(state.last_home, events, Key::Home),
        run(state, events).last_power == latest_press_or_release(state.last_power, events, Key::Power),
    decreases events.len(),
{
    if events.len() > 0 {
        let prefix = events.drop_last();
        lemma_remembers_latest_press_or_release(state, prefix);
        lemma_run_push(state, prefix, events.last());
        assert(prefix.push(events.last()) =~= events);
    }
}

/// The buttons handled are Home and Power, for every kind of event the
/// driver classified (short press, long press, release).
pub proof fn lemma_handled_events(event: KeyEvent)
    ensures
        is_button_event(event) <==> (
            (event.key_of() == Key::Home || event.key_of() == Key::Power) && !(event is Unknown)
        ),
{
}

/// A long press of Power opens the overlay whenever it is hidden, whatever
/// else was remembered; and over every event, opening the overlay is asked
/// for exactly when the overlay goes from hidden to shown.
pub proof fn lemma_overlay_opens_when_shown(state: ButtonState, event: KeyEvent)
    ensures
        !state.power_overlay_visible ==> {
            &&& state.launches_overlay(KeyEvent::Pressing(Key::Power))
            &&& state.after(KeyEvent::Pressing(Key::Power)).power_overlay_visible
        },
        state.launches_overlay(event)
            <==> (!state.power_overlay_visible && state.after(event).power_overlay_visible),
{
}

/// Each button keeps to its own memory: a short press or release is
/// remembered as the latest event of its button, and events of one button
/// leave the other button's memory alone; only a long Power press touches
/// the overlay.
pub proof fn lemma_buttons_remember_their_own_events(state: ButtonState, event: KeyEvent)
    ensures
        (event is Pressed || event is Released) && event.key_of() == Key::Home
            ==> state.after(event).last_home == Some(event),
        (event is Pressed || event is Released) && event.key_of() == Key::Power
            ==> state.after(event).last_power == Some(event),
        event.key_of() != Key::Home ==> state.after(event).last_home == state.last_home,
        event.key_of() != Key::Power ==> state.after(event).last_power == state.last_power,
        event is Pressing ==> state.after(event).last_home == state.last_home
            && state.after(event).last_power == state.last_power,
        event != KeyEvent::Pressing(Key::Power)
            ==> state.after(event).power_overlay_visible == state.power_overlay_visible,
{
}

impl Default for ButtonState {
    fn default() -> (state: ButtonState)
        ensures
            state == ButtonState::initial(),
    {
        ButtonState { last_home: None, last_power: None, power_overlay_visible: false }
    }
}

} // verus!
