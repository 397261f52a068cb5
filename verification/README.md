# ddd_tool

`ddd-tool` drives a document-driven development workflow: requirements become
specifications, specifications become numbered phase plans, and the phases are
worked through one at a time under a small state machine kept in
`project_docs/roadmap.json`.

## Layout

- `src/` — the library, verified with Verus.
  - `state/` — the roadmap (workflow, ordered phases, the pointer to the phase
    under way), its validation, the checks on loading and saving, and the
    laws that hold across its operations.
  - `prompts.rs` — prompt templates with placeholders, filled or refused.
  - `commands/` — the command registry, the natural order in which phase
    documents are accepted, what each subcommand decides from the roadmap,
    the texts installed into an assistant's directories, and the command-line
    routing.
  - `text.rs` — the string operations the rest is stated with.
  - `clock.rs` — the wall clock.
- `app/` — the command-line program: argument parsing, file and archive work,
  JSON encoding of the roadmap, and printing. The routing of commands, the
  choice of each command's step and the decisions on the roadmap are the
  library's; the file work that carries them out is the program's.
- `tests/` — tests of the library.
