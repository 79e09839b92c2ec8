# Fireworks

A realistic fireworks simulator built with [Bevy](https://bevyengine.org/),
whose decision logic lives in a library verified with Verus.

- `src/` — the verified library (`fireworks`):
  - `budget` — live spark / trail / flash counts, their caps, and how much a
    burst is thinned under load;
  - `shells` — shell kinds and their mix, palettes, launch counts, star counts;
  - `rng` — the random draws taken from `rand`'s thread-local generator;
  - `text` — string comparison, `u32` parsing, zero-padded frame numbers;
  - `config` — settings read from the `FIREWORKS_*` environment variables;
  - `capture` — the screenshot and frame-sequence capture schedules;
  - `controls` — keyboard and mouse controls;
  - `view` — native-view rescaling, hill relighting, satellite limit;
  - `scene` — the staged scenes used for README captures;
  - `terrain` — the value-noise lattice hash and the ridge mesh index buffer.
- `app/` — the Bevy application: window, rendering, physics and particle
  appearance (floating point throughout), calling the library for every
  decision above.
- `tests/` — tests of the library on concrete values.

## Controls

| Input | Action |
|-------|--------|
| Left click | Launch a shell that bursts at the clicked point |
| Space | Finale salvo (8 shells at once) |
| A | Toggle automatic launching |
| F | Toggle the FPS readout (shown in the window title) |
| F11 | Toggle borderless fullscreen |
| Esc | Quit |
