# bubble_game

A browser game in which bubbles eat smaller bubbles and grow, checked with
Verus where its rules are discrete.

- `src/` is the verified library: the eating rules between kinds of bubbles,
  what an eat does, who may expel energy, how a round is won or lost,
  identities, the AI population cap and spawn batches, the memory of rich
  areas, and the choice of a tick's collision events (scan order, one event
  per victim, no event for a bubble already removed). Public proof functions
  named `law_*` state the rules that hold across calls.
- `app/` is the game itself, built for WebAssembly: floating-point motion,
  AI steering, geometry of eating and smothering, and drawing on a canvas.
  It asks the library for every discrete decision listed above.
- `tests/` runs the library on concrete values.
