# ruoyi_forge

Verified rewriting engines for customizing RuoYi (Vue, Cloud and single-app)
projects: renaming packages and modules, rewriting Nacos configuration scripts
and YAML blocks, hardening SQL init scripts, generating source files from
templates, and planning a whole transform run.

## Layout

- `src/` — the library, written in Verus. Every function states its result in
  `ensures` over spec functions of plain values (`Seq<char>`, `Seq<...>`,
  `Option`, `Result`); `src/laws.rs` holds the properties that span several
  functions (idempotence of the text patches, settling of upserts, ordering of
  module lists, what the Nacos write-back keeps).
  - `planner.rs` — the plan of a run (`plan_tasks`), from what detection and a
    scan of the disk found (`PlanFacts`).
  - `pipeline.rs` — the run as a state machine (`next_step`) and its messages.
  - `nacos_*.rs` — parsing, rewriting and writing back `config_info` scripts.
  - `ext_calls.rs` — the calls into outside crates (regex, md-5, bcrypt,
    encoding_rs, serde_json, serde_yaml, chrono), each with the contract the
    library relies on.
- `tests/` — tests of the library on concrete values.
- `app/` — the command-line program: reading and writing files, walking
  directories, unpacking archives, JSON settings.
