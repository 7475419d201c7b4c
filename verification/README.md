# trippy_core

The core of a traceroute tracer, verified with Verus.

- `src/types.rs`: the values a tracer is configured with, rounds and errors.
- `src/config.rs`: the channel and strategy configurations a run hands out.
- `src/state.rs`: the trace state, which keeps the most recent rounds.
- `src/model.rs`, `src/run.rs`: the mathematical model of a tracer and the
  state machine of a run (phases, events, actions).
- `src/inner.rs`, `src/tracer.rs`: the tracer itself.
- `src/laws.rs`: properties of the library, proved.
- `app/`: a tracer shared between threads behind a lock, and the loop that
  performs the outside work of a run against a `Network` implementation.
