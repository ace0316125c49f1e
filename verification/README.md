# brkrs rules, verified

The game rules of the brkrs brick-breaker as a Verus library: level matrices
and the spawn plan read off them, multi-hit bricks, scoring and milestones,
lives and the respawn queue, the game-state machine, pause and resume,
cheat mode, level switching, sound bookkeeping, hazards (sea mines,
merkabas, ball-spawning and gravity bricks), material selection and the
texts and overlays of the interface. Every function of `src/` carries a
contract that Verus proves; the laws that relate several calls are public
proof functions next to the functions they speak of.

- `src/` — the verified library.
- `tests/` — tests that run the library on concrete values.
- `app/` — the command-line front end: reading level files, audio settings
  and the texture manifest from disk, and the floating-point computations
  (positions, gravity vectors, paddle widths, velocities).
