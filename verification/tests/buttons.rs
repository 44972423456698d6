use mechanix_shell::buttons::{ButtonResponse, ButtonState};
use mechanix_shell::keys::{Key, KeyEvent};

fn response(handled: bool, launch_overlay: bool) -> ButtonResponse {
    ButtonResponse { handled, launch_overlay }
}

#[test]
fn default_state_is_empty() {
    let state = ButtonState::default();
    assert_eq!(state.last_home, None);
    assert_eq!(state.last_power, None);
    assert!(!state.power_overlay_visible);
}

#[test]
fn home_press_and_release_are_remembered() {
    let mut state = ButtonState::default();
    assert_eq!(state.handle_event(KeyEvent::Pressed(Key::Home)), response(true, false));
    assert_eq!(state.last_home, Some(KeyEvent::Pressed(Key::Home)));
    assert_eq!(state.handle_event(KeyEvent::Released(Key::Home)), response(true, false));
    assert_eq!(state.last_home, Some(KeyEvent::Released(Key::Home)));
    assert_eq!(state.last_power, None);
}

#[test]
fn home_long_press_is_handled_without_change() {
    let mut state = ButtonState::default();
    state.handle_event(KeyEvent::Pressed(Key::Home));
    assert_eq!(state.handle_event(KeyEvent::Pressing(Key::Home)), response(true, false));
    assert_eq!(state.last_home, Some(KeyEvent::Pressed(Key::Home)));
    assert!(!state.power_overlay_visible);
}

#[test]
fn power_short_press_does_not_open_overlay() {
    let mut state = ButtonState::default();
    assert_eq!(state.handle_event(KeyEvent::Pressed(Key::Power)), response(true, false));
    assert_eq!(state.last_power, Some(KeyEvent::Pressed(Key::Power)));
    assert!(!state.power_overlay_visible);
    assert_eq!(state.handle_event(KeyEvent::Released(Key::Power)), response(true, false));
    assert_eq!(state.last_power, Some(KeyEvent::Released(Key::Power)));
}

#[test]
fn power_long_press_opens_overlay_once() {
    let mut state = ButtonState::default();
    assert_eq!(state.handle_event(KeyEvent::Pressing(Key::Power)), response(true, true));
    assert!(state.power_overlay_visible);
    assert_eq!(state.handle_event(KeyEvent::Pressing(Key::Power)), response(true, false));
    assert!(state.power_overlay_visible);
    // A release does not hide the overlay.
    assert_eq!(state.handle_event(KeyEvent::Released(Key::Power)), response(true, false));
    assert!(state.power_overlay_visible);
    assert_eq!(state.handle_event(KeyEvent::Pressing(Key::Power)), response(true, false));
}

#[test]
fn long_press_does_not_touch_last_power() {
    let mut state = ButtonState::default();
    state.handle_event(KeyEvent::Pressed(Key::Power));
    state.handle_event(KeyEvent::Pressing(Key::Power));
    assert_eq!(state.last_power, Some(KeyEvent::Pressed(Key::Power)));
}

#[test]
fn other_events_are_not_handled() {
    let mut state = ButtonState::default();
    state.handle_event(KeyEvent::Pressed(Key::Home));
    let others = [
        KeyEvent::Pressed(Key::VolumeUp),
        KeyEvent::Pressing(Key::VolumeDown),
        KeyEvent::Released(Key::VolumeUp),
        KeyEvent::Unknown(Key::Home),
        KeyEvent::Unknown(Key::Power),
        KeyEvent::Unknown(Key::VolumeDown),
    ];
    for event in others {
        assert_eq!(state.handle_event(event), response(false, false));
        assert_eq!(state.last_home, Some(KeyEvent::Pressed(Key::Home)));
        assert_eq!(state.last_power, None);
        assert!(!state.power_overlay_visible);
    }
}

#[test]
fn latest_press_or_release_wins() {
    let mut state = ButtonState::default();
    let events = [
        KeyEvent::Pressed(Key::Power),
        KeyEvent::Pressed(Key::Home),
        KeyEvent::Released(Key::Power),
        KeyEvent::Pressing(Key::Home),
        KeyEvent::Unknown(Key::Home),
    ];
    for event in events {
        state.handle_event(event);
    }
    assert_eq!(state.last_home, Some(KeyEvent::Pressed(Key::Home)));
    assert_eq!(state.last_power, Some(KeyEvent::Released(Key::Power)));
}
