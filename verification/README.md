# deskcharm

The decision logic of DeskCharm, an ambient desktop overlay that hangs a charm
from the top of the screen, written in Verus and proved against its contracts.

- `src/hit_test.rs`: the shared hit-test state, the scan over per-point
  proximity readings, and the hit-test loop as a state machine (tick event in,
  window action out), with its laws.
- `src/window.rs`: where the overlay window goes, which size the stage
  reports, and what the show/hide control does.
- `src/menu.rs`: the charm catalog, the tray menu, and the dispatch of menu
  item ids to commands, with the law that every item reaches its own command.
- `app/`: the Tauri shell (window system, tray, shortcut, cursor and the
  floating-point distance measurements), which drives the library.
- `tests/`: tests of the library on concrete values.
