# desktop

The rules of a native desktop for a coding agent: what its panes show, which
commands it sends and how it answers refusals, how it keeps its catalog of
sessions, its conversation and its replays. Verus proves the contracts of the
functions under `src/`; it takes on trust only the few items that call outside
crates or std, whose comments say what is claimed of them. Laws over several
functions are the `law_` proof functions beside them.

- `src/`: the library. It works on plain values and never draws, waits or reads.
- `tests/`: the library run on concrete values, with the real outside crates.
- `app/`: ordinary Rust round the library: clock, environment, scroll positions
  in fractions of pixels, tracing, and the traits through which the window and
  the runtime do their work.
