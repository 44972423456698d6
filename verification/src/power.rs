use vstd::prelude::*;

verus! {

/// The decision state of the swipe-to-power-off overlay: the parts of the
/// overlay that decide what its input does.  The card's positions and
/// heights, and the animations that move them, belong to the caller.
#[derive(Clone, Copy, Debug, PartialEq, Eq, Structural)]
pub struct SwipeState {
    /// The card was swiped all the way down and the device is powering off.
    pub power_off: bool,
    /// The opening animation that reveals the card has finished.
    pub reveal_done: bool,
    /// A drag of the card is under way (the pointer went down on it).
    pub dragging: bool,
}

/// Where a released card settles.
#[derive(Clone, Copy, Debug, PartialEq, Eq, Structural)]
pub enum SnapTarget {
    /// Back to where the card rests after the opening animation.
    Start,
    /// All the way down: when the card arrives there the device powers off.
    Bottom,
}

/// What happens to the overlay.
#[derive(Clone, Copy, Debug, PartialEq, Eq, Structural)]
pub enum SwipeEvent {
    /// The opening animation reached its end.
    RevealFinished,
    /// The primary pointer button went down on the card.
    Press,
    /// The pointer moved.
    Move,
    /// The primary pointer button was released.  `swiped_up` holds when the
    /// card was pulled up further than the cancel distance since the press;
    /// `past_snap_threshold` when it was pulled down at least to the snap
    /// threshold.
    Release { swiped_up: bool, past_snap_threshold: bool },
    /// A snap animation ended; `reached_bottom` holds when the card now
    /// covers the whole overlay.
    SnapFinished { reached_bottom: bool },
}

/// What the caller must do in answer to an event.
#[derive(Clone, Copy, Debug, PartialEq, Eq, Structural)]
pub enum SwipeAction {
    Nothing,
    /// Remember where the pointer grabbed the card.
    StartDrag,
    /// Move the card with the pointer.
    FollowPointer,
    /// Close the overlay: the user swiped it away upwards.
    Dismiss,
    /// Animate the card to the target.
    Snap(SnapTarget),
    /// Show the farewell screen and power off.
    PowerOff,
}

impl SwipeState {
    /// The overlay as it opens: revealing, nothing grabbed, powered on.
    pub open spec fn initial() -> SwipeState {
        SwipeState { power_off: false, reveal_done: false, dragging: false }
    }

    /// Pointer input reaches the card only while the overlay still shows it
    /// (not after power-off); a press only after the opening animation.
    pub open spec fn after(self, event: SwipeEvent) -> SwipeState {
        match event {
            SwipeEvent::RevealFinished => SwipeState { reveal_done: true, ..self },
            SwipeEvent::Press =>
                if !self.power_off && self.reveal_done {
                    SwipeState { dragging: true, ..self }
                } else {
                    self
                },
            SwipeEvent::Move => self,
            SwipeEvent::Release { .. } =>
                if !self.power_off && self.dragging {
                    SwipeState { dragging: false, ..self }
                } else {
                    self
                },
            SwipeEvent::SnapFinished { reached_bottom } =>
                if reached_bottom {
                    SwipeState { power_off: true, ..self }
                } else {
                    self
                },
        }
    }

    /// The action asked of the caller.  A release ends a drag: an upward
    /// swipe dismisses the overlay, otherwise the card snaps to the bottom
    /// when pulled past the threshold and back to its start when not.
    pub open spec fn action(self, event: SwipeEvent) -> SwipeAction {
        match event {
            SwipeEvent::RevealFinished => SwipeAction::Nothing,
            SwipeEvent::Press =>
                if !self.power_off && self.reveal_done { SwipeAction::StartDrag } else { SwipeAction::Nothing },
            SwipeEvent::Move =>
                if !self.power_off && self.dragging { SwipeAction::FollowPointer } else { SwipeAction::Nothing },
            SwipeEvent::Release { swiped_up, past_snap_threshold } =>
                if self.power_off || !self.dragging {
                    SwipeAction::Nothing
                } else if swiped_up {
                    SwipeAction::Dismiss
                } else if past_snap_threshold {
                    SwipeAction::Snap(SnapTarget::Bottom)
                } else {
                    SwipeAction::Snap(SnapTarget::Start)
                },
            SwipeEvent::SnapFinished { reached_bottom } =>
                if reached_bottom { SwipeAction::PowerOff } else { SwipeAction::Nothing },
        }
    }

    /// The state of a freshly opened overlay.
    pub fn new() -> (state: SwipeState)
        ensures
            state == SwipeState::initial(),
    {
        SwipeState { power_off: false, reveal_done: false, dragging: false }
    }

    /// Applies one event to the overlay and says what the caller must do.
    pub fn handle(&mut self, event: SwipeEvent) -> (action: SwipeAction)
        ensures
            *final(self) == old(self).after(event),
            action == old(self).action(event),
    {
        match event {
            SwipeEvent::RevealFinished => {
                self.reveal_done = true;
                SwipeAction::Nothing
            },
            SwipeEvent::Press => {
                if !self.power_off && self.reveal_done {
                    self.dragging = true;
                    SwipeAction::StartDrag
                } else {
                    SwipeAction::Nothing
                }
            },
            SwipeEvent::Move => {
                if !self.power_off && self.dragging {
                    SwipeAction::FollowPointer
                } else {
                    SwipeAction::Nothing
                }
            },
            SwipeEvent::Release { swiped_up, past_snap_threshold } => {
                if self.power_off || !self.dragging {
                    SwipeAction::Nothing
                } else {
                    self.dragging = false;
                    if swiped_up {
                        SwipeAction::Dismiss
                    } else if past_snap_threshold {
                        SwipeAction::Snap(SnapTarget::Bottom)
                    } else {
                        SwipeAction::Snap(SnapTarget::Start)
                    }
                }
            },
            SwipeEvent::SnapFinished { reached_bottom } => {
                if reached_bottom {
                    self.power_off = true;
                    SwipeAction::PowerOff
                } else {
                    SwipeAction::Nothing
                }
            },
        }
    }
}

/// The state after handling every event of `events` in order.
pub open spec fn run(state: SwipeState, events: Seq<SwipeEvent>) -> SwipeState
    decreases events.len(),
{
    if events.len() == 0 {
        state
    } else {
        run(state.after(events[0]), events.drop_first())
    }
}

/// The actions asked for, one per event, when handling `events` in order.
pub open spec fn actions(state: SwipeState, events: Seq<SwipeEvent>) -> Seq<SwipeAction>
    decreases events.len(),
{
    if events.len() == 0 {
        Seq::empty()
    } else {
        seq![state.action(events[0])] + actions(state.after(events[0]), events.drop_first())
    }
}

/// The pointer reaching the card: a press, a move or a release.
pub open spec fn is_pointer_event(event: SwipeEvent) -> bool {
    match event {
        SwipeEvent::Press | SwipeEvent::Move | SwipeEvent::Release { .. } => true,
        _ => false,
    }
}

/// One action per event.
pub proof fn lemma_actions_len(state: SwipeState, events: Seq<SwipeEvent>)
    ensures
        actions(state, events).len() == events.len(),
    decreases events.len(),
{
    if events.len() > 0 {
        lemma_actions_len(state.after(events[0]), events.drop_first());
    }
}

/// Powering off is final: the overlay stays powered off, and no later
/// press, move or release of the pointer does anything.
pub proof fn lemma_power_off_is_final(state: SwipeState, events: Seq<SwipeEvent>)
    requires
        state.power_off,
    ensures
        run(state, events).power_off,
        forall|i: int| 0 <= i < events.len() && is_pointer_event(#[trigger] events[i])
            ==> actions(state, events)[i] == SwipeAction::Nothing,
    decreases events.len(),
{
    lemma_actions_len(state, events);
    if events.len() > 0 {
        let next = state.after(events[0]);
        let rest = events.drop_first();
        lemma_power_off_is_final(next, rest);
        lemma_actions_len(next, rest);
        assert forall|i: int| 0 <= i < events.len() && is_pointer_event(#[trigger] events[i])
            implies actions(state, events)[i] == SwipeAction::Nothing by {
            if i > 0 {
                assert(events[i] == rest[i - 1]);
                assert(actions(state, events)[i] == actions(next, rest)[i - 1]);
            }
        }
    }
}

/// Until the opening animation has finished the card cannot be grabbed:
/// without a `RevealFinished` event no drag starts, and no action but
/// `Nothing` or `PowerOff` is asked for.
pub proof fn lemma_no_drag_before_reveal(state: SwipeState, events: Seq<SwipeEvent>)
    requires
        !state.reveal_done,
        !state.dragging,
        forall|i: int| 0 <= i < events.len() ==> #[trigger] events[i] != SwipeEvent::RevealFinished,
    ensures
        !run(state, events).dragging,
        !run(state, events).reveal_done,
        forall|i: int| 0 <= i < events.len() ==> {
            let a = #[trigger] actions(state, events)[i];
            a == SwipeAction::Nothing || a == SwipeAction::PowerOff
        },
    decreases events.len(),
{
    lemma_actions_len(state, events);
    if events.len() > 0 {
        let next = state.after(events[0]);
        let rest = events.drop_first();
        assert(events[0] != SwipeEvent::RevealFinished);
        assert forall|i: int| 0 <= i < rest.len() implies #[trigger] rest[i] != SwipeEvent::RevealFinished by {
            assert(rest[i] == events[i + 1]);
        }
        lemma_no_drag_before_reveal(next, rest);
        lemma_actions_len(next, rest);
        assert forall|i: int| 0 <= i < events.len() implies {
            let a = #[trigger] actions(state, events)[i];
            a == SwipeAction::Nothing || a == SwipeAction::PowerOff
        } by {
            if i > 0 {
                assert(actions(state, events)[i] == actions(next, rest)[i - 1]);
            }
        }
    }
}

/// The overlay powers off only through a snap animation that brought the
/// card all the way down.
pub proof fn lemma_power_off_needs_full_swipe(state: SwipeState, events: Seq<SwipeEvent>)
    requires
        !state.power_off,
        run(state, events).power_off,
    ensures
        exists|i: int| 0 <= i < events.len()
            && #[trigger] events[i] == (SwipeEvent::SnapFinished { reached_bottom: true }),
    decreases events.len(),
{
    if events.len() > 0 {
        let next = state.after(events[0]);
        let rest = events.drop_first();
        if next.power_off {
            assert(events[0] == (SwipeEvent::SnapFinished { reached_bottom: true }));
        } else {
            lemma_power_off_needs_full_swipe(next, rest);
            let j = choose|j: int| 0 <= j < rest.len()
                && #[trigger] rest[j] == (SwipeEvent::SnapFinished { reached_bottom: true });
            assert(events[j + 1] == rest[j]);
        }
    }
}

/// An upward swipe of a grabbed card always dismisses the overlay, however
/// far down the card is; otherwise a release snaps the card to the bottom
/// exactly when it was pulled past the snap threshold, and back to its start
/// when not.
pub proof fn lemma_release_of_a_drag(state: SwipeState, swiped_up: bool, past_snap_threshold: bool)
    requires
        !state.power_off,
        state.dragging,
    ensures
        swiped_up ==> state.action(SwipeEvent::Release { swiped_up, past_snap_threshold }) == SwipeAction::Dismiss,
        !swiped_up && past_snap_threshold
            ==> state.action(SwipeEvent::Release { swiped_up, past_snap_threshold }) == SwipeAction::Snap(SnapTarget::Bottom),
        !swiped_up && !past_snap_threshold
            ==> state.action(SwipeEvent::Release { swiped_up, past_snap_threshold }) == SwipeAction::Snap(SnapTarget::Start),
{
}

/// Every release ends the drag: afterwards nothing is grabbed, the pointer
/// moves the card no more until the next press, and the power and reveal
/// flags are as they were.
pub proof fn lemma_release_ends_drag(state: SwipeState, swiped_up: bool, past_snap_threshold: bool)
    ensures
        ({
            let next = state.after(SwipeEvent::Release { swiped_up, past_snap_threshold });
            &&& !state.power_off ==> !next.dragging
            &&& !state.power_off ==> next.action(SwipeEvent::Move) == SwipeAction::Nothing
            &&& next.power_off == state.power_off
            &&& next.reveal_done == state.reveal_done
        }),
{
}

/// A press on the revealed card grabs it, moves then follow the pointer
/// without changing the state, and a press before the reveal (or after
/// power-off) changes nothing.
pub proof fn lemma_press_and_move(state: SwipeState)
    ensures
        !state.power_off && state.reveal_done ==> {
            &&& state.action(SwipeEvent::Press) == SwipeAction::StartDrag
            &&& state.after(SwipeEvent::Press) == (SwipeState { dragging: true, ..state })
            &&& state.after(SwipeEvent::Press).action(SwipeEvent::Move) == SwipeAction::FollowPointer
        },
        state.power_off || !state.reveal_done ==> {
            &&& state.action(SwipeEvent::Press) == SwipeAction::Nothing
            &&& state.after(SwipeEvent::Press) == state
        },
        state.after(SwipeEvent::Move) == state,
        state.action(SwipeEvent::Move) == SwipeAction::FollowPointer <==> (!state.power_off && state.dragging),
{
}

/// The end of the opening animation only marks the card as revealed; the end
/// of a snap powers off exactly when the card reached the bottom, and
/// otherwise changes nothing.
pub proof fn lemma_animation_ends(state: SwipeState, reached_bottom: bool)
    ensures
        state.after(SwipeEvent::RevealFinished) == (SwipeState { reveal_done: true, ..state }),
        state.action(SwipeEvent::RevealFinished) == SwipeAction::Nothing,
        reached_bottom ==> state.after(SwipeEvent::SnapFinished { reached_bottom }) == (SwipeState { power_off: true, ..state }),
        reached_bottom ==> state.action(SwipeEvent::SnapFinished { reached_bottom }) == SwipeAction::PowerOff,
        !reached_bottom ==> state.after(SwipeEvent::SnapFinished { reached_bottom }) == state,
        !reached_bottom ==> state.action(SwipeEvent::SnapFinished { reached_bottom }) == SwipeAction::Nothing,
{
}

} // verus!
