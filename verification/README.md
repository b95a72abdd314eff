# mall_raycaster

The rules of a small first-person maze game ("The Mall"): a girl collects
the money lying around a shopping mall, then finds the bag to buy it, while
debt collectors (level 1) or police officers (level 2) stand in her way.

- `src/` is the verified library (Verus):
  - `maze` — the tile grid, reading a maze file into rows, and which cells are corridors;
  - `player` — reading the controls of a frame and deciding whether a step is taken, blocked, or wins;
  - `enemy` — axis-aligned headings, corridor steering with a turn preference, and the police walk cycle;
  - `collectable` — items on the floor and the counting lemmas about picking them up;
  - `level` — what each of the two levels starts with;
  - `session` — the screen state machine, money bookkeeping and the bag;
  - `render` — the whole-number parts of drawing (wall tiles, sprite texels).
- `app/` is the program around it: raylib window, input, floating-point
  positions and angles, drawing, and rodio audio.
- `tests/` exercises the library on concrete games.
