# fetris

A falling-block game in the style of TGM1, written as a Verus library whose
rules are proved against their specifications, with a thin Bevy application
around it.

## Layout

- `src/` — the verified library.
  - `data.rs` — pieces, keys, phases, grades, events, settings.
  - `board.rs` — the playfield, fitting, full rows, compaction.
  - `rotation_system.rs`, `diagram.rs`, `shape_diagrams.rs` — the ARS and
    SRS rotation systems, the text format of their shapes, and the proof
    that the shape tables are what the diagrams show.
  - `constants.rs` — delays and the gravity table.
  - `randomizer.rs`, `rng.rs` — the TGM randomizer over `rand`.
  - `game.rs` — the game's state machine and its laws, in two schedules: `tick`, one phase per tick, and `frame`, the phases chained within a frame as the application runs them.
  - `judge.rs`, `hiscores.rs`, `grade_order.rs` — scoring, grades and their
    order, hi-score tables.
  - `snapshot.rs`, `hud.rs`, `overlay.rs` — what the screen shows.
  - `menu.rs`, `app_state.rs`, `input.rs`, `audio.rs`, `storage.rs`,
    `debug.rs` — menus, screens, keys, sounds, the saved store and its JSON
    form (through `serde_json`), the debug scene.
- `tests/` — behaviour tests of the library.
- `app/` — the application: frame loop, key codes, reading and writing the
  store's file, serde copies of the settings and hi-score types,
  floating-point colours.
