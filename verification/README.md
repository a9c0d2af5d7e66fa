# robbo_app

The front-end of DigitalRobbo, a GNU Robbo remake, split in two:

- `src/` — a library verified with Verus: object pools, grid geometry,
  latched player steering, the game-flow, main-menu, intro, countdown and
  smoke-run state machines, level-pack ordering and selection, saved bests,
  background-music decisions, and the mappings from simulation events to
  sounds, particle effects and sprites. Each public function states what it
  returns in its contract; the `law_*` proof functions state properties that
  span several calls.
- `app/` — the Bevy program around it: windows, rendering, audio playback,
  input devices, the save file, level-pack loading, and everything computed
  in floating point (volumes, layout, tweens, glides).
- `tests/` — tests of the library on concrete values.

The deterministic simulation itself (`robbo_core`) and the `.dat` level
parser (`robbo_formats`) are separate crates of the same workspace; `app/`
calls them and converts their values to the library's types.
