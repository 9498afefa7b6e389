# pvz_rust

The rules of a lawn-defence game (plants against zombies), written in Verus
and proved against their contracts, with a Bevy game around them.

- `src/` is the verified library: the plant, zombie and armor catalogs and
  their checks, per-level overrides and the balance check of a level, the
  point-budget wave spawner, zombie body-hp stages, the lawn grid, the card
  selection, the seed bar and planting, the menus' decisions, the adventure
  progress and where the save lives.  Floating-point data values are held by
  their IEEE-754 bit patterns and only compared, never computed with.
- `tests/` exercises the library on concrete values.
- `app/` is the executable: it reads the RON data files, runs the Bevy
  systems and egui screens, does the floating-point arithmetic (geometry,
  timers, hp), and hands every decision to the library.
