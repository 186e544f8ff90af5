# Pax Britannica

One-button real-time strategy for one to four players. Each player holds a
button to sweep a needle round their factory's build dial and lets go to
build the unit it points at: fighters, bombers, frigates, or an upgrade to
the factory's income. A lone player faces the computer.

## Layout

- `src/` is the verified library, checked by Verus. It holds the parts of
  the game that are counting, ordering and bookkeeping rather than geometry:
  the random stream (`rng`), the actor model and the order in which a frame
  runs scripts (`world`), blueprints and the fresh scene (`blueprints`,
  `the_game`), the input latch and the touch quadrants (`the_one_button`,
  `touch`), the particle rings (`particles`), the art catalogue
  (`resources`), and under `scripts/` the scene machine, the CPU's build
  orders, the bomber's volley, missile lifetimes, fighter decisions, which
  bodies the collision check tests and in what order, and random target
  picks (`targeting`). Each public function states its result in its
  contract, and the properties that span functions are proof functions
  named `lemma_*`.
- `tests/` runs the library on concrete values.
- `app/` is the game around it, in ordinary Rust: vectors, hulls and
  steering in floating point, the scripts' per-actor data, the frame loop
  that runs what the library's phase walk hands out, rendering and sound
  with macroquad, and a headless runner (`--headless [frames]`).
