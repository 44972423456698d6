use vstd::prelude::*;

verus! {

/// A hardware key of the device.
#[derive(Clone, Copy, Debug, PartialEq, Eq, Structural)]
pub enum Key {
    Home,
    Power,
    VolumeUp,
    VolumeDown,
}

/// What happened to a hardware key: a short press, a key held down
/// (long press), a release, or an event the button driver could not classify.
#[derive(Clone, Copy, Debug, PartialEq, Eq, Structural)]
pub enum KeyEvent {
    Pressed(Key),
    Pressing(Key),
    Released(Key),
    Unknown(Key),
}

impl KeyEvent {
    /// The key that the event is about.
    pub open spec fn key_of(self) -> Key {
        match self {
            KeyEvent::Pressed(k) => k,
            KeyEvent::Pressing(k) => k,
            KeyEvent::Released(k) => k,
            KeyEvent::Unknown(k) => k,
        }
    }
}

} // verus!
