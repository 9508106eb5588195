# tank_battle

The rules of a two-player tank battle game, written in Verus and verified.

- `src/` is the rules library: kill records, enemy wave bookkeeping and
  spawn-point choice, bullet and power-up resolution, player stats, the camp
  shovel walls, animation frame stepping, the stage tally and the side-panel
  ordering. Each public function carries a contract; the `law_*` proof
  functions state properties that span several calls (the tally ends after
  exactly its kills plus seven ticks and then shows every kill, an enemy
  tank is counted destroyed at most once, points per kill follow the latest
  kill of each kind, the pair filter is symmetric, the wave counts stay
  consistent, and so on).
- `tests/` runs the library on concrete values.
- `app/` is the Bevy game around the library: rendering, physics, input,
  audio, timers and everything computed in floating point.
