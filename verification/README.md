# synd_term

The library behind `synd`, a terminal feed reader, written in Verus: each
public function states in its `requires` / `ensures` what it does, and Verus
proves the code against it. Where an outside call decides the outcome (the
platform's directories, a random token), the contract states what is handed to
the call and what holds of whatever comes back.

## Layout

- `src/keymap/`: layers, the command registry, key notation, keymap
  configuration and its merge with user bindings, the compiled binding tables
  (a trie per layer), the runtime tables and the resolver that turns key strokes
  into actions; `defaults.rs` holds the default keymap and the proof that it
  compiles.
- `src/config/`: configuration entries resolved by priority (flag, file,
  default), the configuration file, project paths, category icons and
  durations such as `30s`.
- `src/cli/`: what the subcommands decide and print (`check`, `clean`,
  `import`, `export`).
- `src/client/`: GraphQL request bodies, response payloads, and what the API
  client makes of responses and socket messages.
- `src/interact/`: opening browsers and editors, with a recording interactor for
  tests.
- `src/job.rs`, `src/operation.rs`, `src/matcher.rs`, `src/local_api/`: job
  admission under a concurrency limit, grouped operations, fuzzy matching and the
  local API launch.
- `app/`: the `synd` program: argument parsing, reading the configuration
  file, removing files and printing.
- `tests/`: tests of the library on concrete values.

Public proof functions (`lemma_*`) state properties that hold across calls,
such as key notation round trips, the override of default bindings by user
bindings, and the priority of configuration sources.
