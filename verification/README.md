# rustbench

An evaluation harness for Rust code that language models write. It asks a model for code,
checks the code with the Rust toolchain, and turns what the tools find into scores.

- `src/` is the library: prompts and replies, the temporary Cargo project, the reading of the
  tools' output, the steps of an evaluation and its scores, reports, and what is stored of a
  result. Every function has a contract that Verus proves.
- `src/outside.rs` holds the few calls into other crates and into std whose contracts are
  relied on without proof.
- `app/` is the command line program: HTTP, processes, files, the database and the terminal.
- `tests/` runs the library on concrete values.

Scores are exact fractions in the library. The Rust Proficiency Index of code that compiles is
40% functional correctness, 35% memory safety and 25% idiomatic quality; code that does not
compile has the index 0.

Memory safety is 1 for code that Miri calls clean, one half where tests pass but Miri does not,
and 0 otherwise. The time limit holds for compilation and for tests; Miri has three times as
much.
