# heal_quest

The rules of a small top-down action game built on Godot: the hero heals
enemies with a single returning bullet, purifies fountains, and finally heals
the Demon King.

- `src/` is the verified library (Verus).  Each module holds, as plain values,
  the state one kind of scene object reasons about, and the decisions it takes
  when the engine reports an event; contracts state those decisions exactly.
  `controller` is the game-wide progress record (healed enemies with their
  positions, purified fountains, cleared rooms, timer and display flags).
- `app/` is the engine side: Godot node classes that read engine events, call
  the library, and perform the actions it returns (sounds, animations, scene
  changes, physics, random numbers and floating-point geometry).
- `tests/` exercises the library on concrete values.
