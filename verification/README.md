# marlin_gerbil_scheme

Rust-side projections, validation and planning for the Gerbil Scheme runtime
that Marlin's loop-case driver, policy packs and resident strategy lanes run
on, written in Verus: each function states what it returns in its contract,
and Verus proves it.

## Layout

- `src/` is the verified library.
  - `loop_case_driver/` parses and trusts the Scheme vertical trace, projects
    cases and loop programs, plans intent-case artifact manifests and reads
    real-LLM case receipts.
  - `policy_pack_projection/` holds the type manifests, contracts and schema
    checks of policy-pack, compiler and mixin-stack receipts.
  - `resident_runtime/` plans resident sessions, lanes and processes, admits
    strategy requests, builds execution receipts, and writes and reads the
    datum text that a strategy procedure is called with and answers in.
  - `scheme_types/` validates type and package manifests, typed values and
    native projections, and models Scheme values.
  - `native_aot_cli.rs`, `real_gxi_gate.rs` and `runtime.rs` read command
    lines and plan commands, load paths and build scripts.
  - `text.rs` holds the verified text helpers the rest is built on.
- `tests/` runs the library on concrete values.
- `app/` is the plain Rust around it: processes, files, environment, serde
  forms of receipts and float formatting.
