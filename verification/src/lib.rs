//! Input handling and overlay decisions of the Mechanix shell: hardware
//! buttons, volume keys, the swipe-to-power-off overlay and the screenshot
//! overlay.  Every function here is a pure decision over plain values; the
//! windowing, rendering and file work stay with the caller.

pub mod keys;
pub mod buttons;
pub mod volume;
pub mod power;
pub mod screenshot;
