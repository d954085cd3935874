# Edgard in Kimeria

A 2D platformer built with Bevy. The game's rules are a Verus-verified
library; the engine around it is an ordinary Bevy application.

- `src/` — the verified rules: localisation (`localization`), the top-level
  state and progress (`state`), level rotation and map-object classification
  (`level`), contact resolution decisions (`collision`), the player's routines,
  motion state, attack and jump (`player`), enemy reactions (`enemy`),
  triggers, torches and collectables (`items`), escalators and falling
  platforms (`objects`), the clip table (`clips`), sprite-sheet layout and
  playback (`animation`), menu
  actions and focus navigation (`menu`), asset naming and loading (`assets`)
  and the scripted screenshot capture (`capture`).
- `tests/` — tests of the library on concrete scenarios.
- `app/` — the Bevy game: rendering, input, audio, map loading and all the
  floating-point motion, calling the library for every decision.

Positions, velocities and timers are floating point and stay with the engine.
The library decides from the facts the engine measures — which boxes overlap,
the sign of a velocity, whether an animation or a countdown has ended — and
its contracts state those decisions exactly.
