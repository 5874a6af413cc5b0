# alpha_fighter

A two-player arcade fighting game.  The rules are a verified library;
the window, input, audio, drawing and continuous physics are a thin
program around it.

- `src/roster.rs`: the four characters, their names, move names,
  colours and select-screen order.
- `src/moves.rs`: fighter states, the standing combo chains and the frame
  data table of every attack.
- `src/animation.rs`: which sprite-sheet components each animation plays,
  which one shows on a tick, mirroring, and backdrop removal for sheets.
- `src/sheets.rs`: decoding a sprite sheet file (through macroquad's image
  decoder) and making its flat backdrop transparent.
- `src/fighter.rs`: a fighter's combat state (health, meter, the action in
  progress, combos) and its hurtbox.
- `src/input.rs`: latching key presses between fixed-rate ticks.
- `src/game.rs`: character select, rounds, the best-of-three match, and the
  rules of one fighting tick.
- `src/laws.rs`: properties that span operations and ticks.
- `app/main.rs`: the macroquad program.  Positions and velocities are
  floats there; the library reports how they change (`Motion`,
  `FighterStep`) and takes back the distances and overlaps it needs.

The sprite crop table (`app/animation_data.rs`) and the art and audio
under `assets/` are private and not part of this repository.
