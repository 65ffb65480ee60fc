# agentmem errors

The error vocabulary of the agent memory store, verified with Verus.

- `src/validation.rs`, `src/config.rs`, `src/store.rs`, `src/not_found.rs`,
  `src/agent.rs`: the error types, their constructors, their conversions into
  the crate-wide `AgentMemoryError`, and the exact message each one renders to.
- `src/text.rs`: decimal rendering of integers used inside messages.
- `src/display.rs`: the standard-library formatting the messages rely on
  (`char` debug rendering, I/O error rendering) and the `std::io::Error` and
  `std::fmt::Error` types.
- `src/laws.rs`: properties relating the types and their messages.
- `app/lib.rs`: wrappers that give the library's types `Display` (through the
  verified `message`) and `std::error::Error` (with `source()` through the
  verified `io_source`).
