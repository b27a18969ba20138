# anchor

The law engine of Anchor, a constitution-first project design tool, written
in Verus and verified.

- `src/domain.rs` — the domain model: projects, the constitution, artifacts
  and their versions, approvals, trace links, drift alarms, amendments.
- `src/state_machine.rs` — the artifact lifecycle
  (Draft → Complete → Valid → Approved → Stale → Draft) and its laws.
- `src/traceability.rs` — upstream and downstream link queries.
- `src/readiness_gate.rs` — the execution readiness gate: its six blocking
  rules, the blocking reasons it reports, and the export manifest.
- `src/export.rs` — the thirteen-file export package, guarded by the readiness gate.
- `src/render.rs` — the markdown pages and reports of the export package.
- `src/store.rs` — the in-memory project store and the demo project.
- `src/persistence.rs` — the project file format: versions, djb2 content
  hash, and the checks made when a file is loaded.
- `src/version.rs` — dotted format versions; files newer than the engine
  are refused.
- `src/commands.rs` — the queries and mutations behind the shell's commands.
- `src/text.rs` — byte-wise string order and decimal numerals.

`app/` holds the desktop shell around the library: the Tauri command layer,
serializable copies of the library's types, and reading and writing project
files.
