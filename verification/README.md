# mushroom_chain

The game logic of a turn-based puzzle game: the player plants mushrooms on a
grid, mycelium connects them, and a chain reaction started from one mushroom
travels through the network, producing spores. The logic is written in Verus,
with contracts that state what each function does, and proved.

## Layout

- `src/play_field/`: grid positions, tiles, the play field (tiles and the spatial
  index of entities), mycelium connections with Bresenham lines, the placement
  preview, and the data of the ground texture.
- `src/mushrooms/`: mushroom types and their definitions, facing and rotation,
  the chain activation queue, grid clicks, and end-of-turn tile conversion.
- `src/game/`: turn phases, levels, the game state, the event queue and the texts
  of the interface.
- `src/carddeck/`: cards, the deck, the hand and card dragging.
- `app/main.rs`: a Bevy program that runs the logic with the clock, the keyboard
  and entities; spore and energy amounts, which are floating point, are computed
  there. It reads commands from standard input, one per line: `click X Y`,
  `rclick X Y`, `hover X Y`, `select TYPE`, `draw N`, `discard ENTITY`, `advance`
  (the next turn phase, as the space bar), `retry`, `next` and `menu`.
- `tests/`: tests of the library on concrete values.

Spore amounts and energies are type parameters of the library (`f64` and `f32` in
the program): the library carries them and decides what happens, and the program
does the arithmetic on them. Percentages (tile multipliers, boosts, mycelium
strength), milliseconds and microseconds are integers.
