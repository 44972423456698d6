# mechanix_shell

Verified input decisions of the Mechanix shell.

- `src/keys.rs`: hardware keys and key events.
- `src/buttons.rs`: Home and Power button handling; the power-options
  overlay opens on a long Power press, at most once.
- `src/volume.rs`: which way a volume key event moves the volume.
- `src/power.rs`: the swipe-to-power-off overlay as a state machine from
  pointer and animation events to actions.
- `src/screenshot.rs`: the commands that answer the screenshot overlay's
  buttons and save results.
- `app/`: gpui and bevy glue that performs those actions: windows,
  rendering, float geometry and animation, file I/O.
