# zellij_utils

Error reporting and plugin configuration for a terminal workspace, verified with Verus.

- `src/errors/contexts.rs`: the calls that a call stack records, and how they show.
- `src/errors/call_stack.rs`: the call stack of a thread or a task.
- `src/errors/logging.rs`: what is logged of an error, and what becomes of it.
- `src/errors/panics.rs`: what is logged, shown and sent of a panic.
- `src/input/layout.rs`, `src/input/plugin.rs`, `src/input/plugins.rs`: the plugins that a layout
  asks for, what is known of each, and where it is looked for.
- `src/outside.rs`: the calls that leave the library, with the contracts that the proofs rest on.
- `app/`: thread-local state, the panic hook, logging, files and serialization.
