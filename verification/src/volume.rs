use vstd::prelude::*;

use crate::keys::{Key, KeyEvent};

verus! {

/// The way a volume key moves the volume level.
#[derive(Clone, Copy, Debug, PartialEq, Eq, Structural)]
pub enum VolumeDirection {
    Up,
    Down,
}

/// Volume keys act on a short press, while held down, and on events the
/// driver could not classify; their release changes nothing, and other keys
/// are not volume keys.
pub open spec fn spec_volume_direction(event: KeyEvent) -> Option<VolumeDirection> {
    match event {
        KeyEvent::Released(_) => None,
        _ => match event.key_of() {
            Key::VolumeUp => Some(VolumeDirection::Up),
            Key::VolumeDown => Some(VolumeDirection::Down),
            _ => None,
        },
    }
}

/// Which way, if any, a hardware key event moves the volume.  The caller
/// then adds (`Up`) or subtracts (`Down`) one configured step from the
/// level and keeps it within the allowed range.
pub fn volume_direction(event: KeyEvent) -> (direction: Option<VolumeDirection>)
    ensures
        direction == spec_volume_direction(event),
{
    match event {
        KeyEvent::Pressed(Key::VolumeUp)
        | KeyEvent::Pressing(Key::VolumeUp)
        | KeyEvent::Unknown(Key::VolumeUp) => Some(VolumeDirection::Up),
        KeyEvent::Pressed(Key::VolumeDown)
        | KeyEvent::Pressing(Key::VolumeDown)
        | KeyEvent::Unknown(Key::VolumeDown) => Some(VolumeDirection::Down),
        _ => None,
    }
}

/// No event of the Home or Power buttons changes the volume, and a button
/// event and a volume change never come from the same key event.
pub proof fn lemma_button_events_leave_volume_alone(event: KeyEvent)
    ensures
        crate::buttons::is_button_event(event) ==> spec_volume_direction(event) is None,
        spec_volume_direction(event) is Some ==> !crate::buttons::is_button_event(event),
{
}

/// Volume Up raises and Volume Down lowers the level on every event but a
/// release; no other key changes the volume.
pub proof fn lemma_volume_keys(event: KeyEvent)
    ensures
        spec_volume_direction(event) == Some(VolumeDirection::Up)
            <==> (event.key_of() == Key::VolumeUp && !(event is Released)),
        spec_volume_direction(event) == Some(VolumeDirection::Down)
            <==> (event.key_of() == Key::VolumeDown && !(event is Released)),
        spec_volume_direction(event) is None
            <==> (event is Released || (event.key_of() != Key::VolumeUp && event.key_of() != Key::VolumeDown)),
{
}

} // verus!
