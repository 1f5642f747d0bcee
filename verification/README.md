# async_primer

Small asynchronous-runtime demonstrations (timer futures, a hand-written
future state machine, a minimal executor, a `select!` loop, a Redis-style
key-value server and client) split into a verified library and a thin
program around it.

- `src/` — the library, verified with Verus: the decisions each demo makes
  (`clock`, `delay`, `main_future`, `executor`, `select_loop`, `redis`),
  with contracts and proved laws.
- `app/` — the program: reads the clock, spawns timer threads, polls
  futures, runs the tokio runtime and talks to sockets, asking the library
  what to do at each step. `app/main.rs` runs one demo, chosen by name.
- `tests/` — tests of the library on concrete values.
