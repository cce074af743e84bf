# platformer

A small 2D platformer on Bevy, split in two:

- `src/` — the verified library (Verus): the ASCII level format and its checks, the
  list of tiles a level builds into, the scoreboard and the run-clock start rule, the
  win/goal state rule, steering, the draw layers, and the HUD and win-screen text.
- `app/` — the game itself (ordinary Rust on Bevy): windowing, ECS systems, the `f32`
  simulation (gravity, AABB collision, moving platforms, camera easing) and the UI.
  It hands the library plain values and applies what comes back.
- `tests/` — tests of the library on concrete values.
