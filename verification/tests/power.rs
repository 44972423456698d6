use mechanix_shell::power::{SnapTarget, SwipeAction, SwipeEvent, SwipeState};

fn release(swiped_up: bool, past_snap_threshold: bool) -> SwipeEvent {
    SwipeEvent::Release { swiped_up, past_snap_threshold }
}

fn revealed() -> SwipeState {
    let mut state = SwipeState::new();
    assert_eq!(state.handle(SwipeEvent::RevealFinished), SwipeAction::Nothing);
    state
}

#[test]
fn new_overlay_is_revealing() {
    let state = SwipeState::new();
    assert_eq!(state, SwipeState { power_off: false, reveal_done: false, dragging: false });
}

#[test]
fn press_before_reveal_is_ignored() {
    let mut state = SwipeState::new();
    assert_eq!(state.handle(SwipeEvent::Press), SwipeAction::Nothing);
    assert_eq!(state.handle(SwipeEvent::Move), SwipeAction::Nothing);
    assert_eq!(state.handle(release(false, true)), SwipeAction::Nothing);
    assert!(!state.dragging);
}

#[test]
fn drag_follows_pointer() {
    let mut state = revealed();
    assert_eq!(state.handle(SwipeEvent::Press), SwipeAction::StartDrag);
    assert!(state.dragging);
    assert_eq!(state.handle(SwipeEvent::Move), SwipeAction::FollowPointer);
}

#[test]
fn upward_swipe_dismisses() {
    let mut state = revealed();
    state.handle(SwipeEvent::Press);
    assert_eq!(state.handle(release(true, true)), SwipeAction::Dismiss);
    assert!(!state.dragging);
}

#[test]
fn release_past_threshold_snaps_to_bottom() {
    let mut state = revealed();
    state.handle(SwipeEvent::Press);
    assert_eq!(state.handle(release(false, true)), SwipeAction::Snap(SnapTarget::Bottom));
    assert!(!state.dragging);
}

#[test]
fn short_release_snaps_back() {
    let mut state = revealed();
    state.handle(SwipeEvent::Press);
    assert_eq!(state.handle(release(false, false)), SwipeAction::Snap(SnapTarget::Start));
}

#[test]
fn release_without_drag_does_nothing() {
    let mut state = revealed();
    assert_eq!(state.handle(release(true, true)), SwipeAction::Nothing);
    assert_eq!(state.handle(SwipeEvent::Move), SwipeAction::Nothing);
}

#[test]
fn snap_to_bottom_powers_off_for_good() {
    let mut state = revealed();
    state.handle(SwipeEvent::Press);
    state.handle(release(false, true));
    assert_eq!(state.handle(SwipeEvent::SnapFinished { reached_bottom: true }), SwipeAction::PowerOff);
    assert!(state.power_off);
    assert_eq!(state.handle(SwipeEvent::Press), SwipeAction::Nothing);
    assert_eq!(state.handle(SwipeEvent::Move), SwipeAction::Nothing);
    assert_eq!(state.handle(release(false, true)), SwipeAction::Nothing);
    assert_eq!(state.handle(SwipeEvent::SnapFinished { reached_bottom: false }), SwipeAction::Nothing);
    assert!(state.power_off);
}

#[test]
fn snap_back_keeps_power_on() {
    let mut state = revealed();
    state.handle(SwipeEvent::Press);
    state.handle(release(false, false));
    assert_eq!(state.handle(SwipeEvent::SnapFinished { reached_bottom: false }), SwipeAction::Nothing);
    assert!(!state.power_off);
    assert_eq!(state.handle(SwipeEvent::Press), SwipeAction::StartDrag);
}
