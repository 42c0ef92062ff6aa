# lau-jepa-gravity

A room-based "gravity" system for choosing model parameters: every room carries
one number in [-1, 1] that says what shape of response works there, and model
parameters, routing and progressive refinement are derived from it.

## Layout

- `src/` — the verified library (Verus):
  - `style.rs`: telling a user's style (playful, precise, narrative, Socratic,
    direct or mixed) from the text of a message, with the scoring rules as
    spec functions and the law that the single highest-scoring axis wins.
  - `text.rs`: substring, prefix and character-count checks on text.
  - `prompt.rs`: prompt styles and their instruction texts.
  - `progressive.rs`: progressive generation levels, success history and
    model choice.
  - `usage.rs`: a tally of model uses keyed by name.
  - `cluster.rs`: adding a room to a cluster's room list once.
- `app/` — the `f64` side: the gravity value itself, signals, model
  parameters, rooms, the gravity field, model routing and zoom, plus the
  serde-serializable copies of the library's types.
- `tests/` — tests of the library.
