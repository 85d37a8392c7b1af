# armature_log

The verified core of a small structured-logging framework, written in Verus.

- `src/level.rs`: log levels and output formats, their names and case-insensitive parsing.
- `src/config.rs`: the configuration read from the `ARMATURE_*` variables and the terminal state of stderr.
- `src/runtime.rs`: the logging state (seeded once from the environment on first use), its getters and setters, and `log`, which decides whether a record is written and renders it.
- `src/builder.rs`: the fluent `ConfigBuilder` and the presets.
- `src/render.rs`: the Pretty, Compact and JSON line layouts.
- `src/tracing_compat.rs`: the filter directive for a `tracing` subscriber.
- `src/laws.rs`: properties that span several operations, proved.
- `src/outside.rs`: the calls into `chrono`, `colored`, `serde_json` and `String::push`, with the contracts that the proofs rely on (the shape of the clock texts, the padded text between style codes, the JSON string literal).

`app/` holds the process-wide side: the global state behind a mutex, reading the
environment, writing to stderr, the log macros and the `tracing` subscriber.

The configuration's module-path switch is called `module_paths` (the
`LogConfig` field and the `ConfigBuilder` method): `module_path` names a
compile-time macro, and the source rules this crate is written under keep
that word out of its text. The runtime setter keeps the name `set_module_path`.
