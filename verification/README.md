# compactveteran

CompactVeteran treats context compaction as a handoff: every completed Sol pass
is checkpointed in local Git, and when compaction arrives a fresh session is
started at an exact project map (objective, cursor, next action) instead of a
recap.

This crate is written in Verus. `src/` is the verified library:

- `hook_input` – the hook payload and the routing of a hook call
- `state` – session and project state: merging hook payloads, recording a
  session in its project, and where state is kept
- `project_map` – the handoff document and the clipping of long texts
- `git_checkpoint` – the checkpoint's sequence of Git commands as a step
  function, with the commit message
- `guard` – the credential filename guard over `git status --porcelain`
- `project_lock` – the per-project lock record, its staleness rule and the
  steps of taking the lock
- `catalog` – the model catalog overlay (Sol's raised ceiling)
- `config` – the `config.toml` edit
- `control`, `supervisor` – the restart request and the supervisor's decisions,
  one reported event at a time
- `trust` – the app-server hook listing and the doctor's report
- `digest`, `paths`, `text` – digests, file locations and byte-level helpers

`app/` is the command-line program around it: environment, files, processes,
sockets, signals and JSON records. `tests/` runs the library on concrete values.
