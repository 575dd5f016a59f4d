# controller

The decision logic of a CS2 overlay controller, verified with Verus.

- `src/bomb.rs`: the bomb's state and details, entity classes, player names.
- `src/bomb_scan.rs`: the scan over the entity list that finds the bomb, as a
  state machine that asks for each memory read it needs.
- `src/overlay.rs`: what the bomb timer panel and the bomb label show.
- `src/recoil.rs`: recoil compensation (when to compensate, which mouse
  movement to send).
- `src/build_info.rs`: the engine build information.
- `src/settings.rs`: application defaults.
- `app/`: the game-facing side (memory reads, state registry entries, imgui
  drawing, floating-point geometry), which hands plain values to the library.
- `tests/`: tests of the library.
