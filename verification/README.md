# rust_in_peace

The rules of a small first-person arena shooter, verified with Verus.

`src/` is the verified library:

- `player` — life, hits, elixir, jump and speed powers, and the contact frame
  that applies them;
- `attack` — the arms' raise / attack / lower cycle and what a shot does;
- `enemy` — skull and skeleton life, elite skulls, the skeletons' turn timer;
- `card` — card colours and sprites, and the draw that never repeats a card;
- `scene` — menu / play / game over, enemy waves, card luck, spawn intervals,
  trophies and the game over text;
- `ui` — the round clock, the life text and the power label;
- `camera` — camera modes, cursor grab, movement keys and power figures;
- `hierarchy` — searches up the scene graph (enemy hit, ground below);
- `text` — decimal numbers for the texts;
- `timekeeping` — the calls into `bevy` timers and `rand`;
- `laws` — properties proved over all inputs.

`app/` is the game itself on the Bevy engine: rendering, float physics and
steering, input polling, sound and the ECS systems that call the library.
`tests/` runs the library on concrete values.
