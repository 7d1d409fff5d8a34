# cargo_cosmopolitan

The core of `cargo cosmopolitan`, a Cargo subcommand that builds `no_std +
alloc` Rust programs as Cosmopolitan Actually Portable Executables (one file
with x86-64 and ARM64 code), written in Verus with its behaviour stated as
contracts and proved.

- `src/` is the verified library: command-line parsing (`cli`), the linker
  adapter (`link`), how tools are started and launcher scripts quoted
  (`launch`), the `PATH` search and status checks (`process`), the custom
  target specification (`target`, through `serde_json` in `json`), the
  preflight plan (`preflight`), the build and packaging decisions
  (`packaging`, `artifacts`, `order`), the order of the preflight probes and
  of packaging each executable as state machines (`steps`) and the decisions
  of a whole run (`driver`). Paths and arguments are the bytes of Unix OS strings.
- `app/main.rs` is the executable: it runs processes, reads and writes files,
  and reads the environment, and asks the library at every decision.
- `tests/` exercises the library on concrete values.

The executables of a build are kept in `artifacts::Artifacts`, a vector
sorted by key (package, kind, name) whose order is a type invariant, rather
than in a `BTreeMap`: the keys are byte strings, and vstd specifies what a
`BTreeMap` holds only for key types whose comparison it knows to be a total
order (`obeys_cmp`), which covers integers and tuples of them but not
`Vec<u8>` or `String`. The sorted vector gives the
same iteration order, one entry per key, and its operations are proved.
