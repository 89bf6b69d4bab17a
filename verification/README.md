# unity_flow

The decision logic of an orchestrator that runs Unity PlayMode tests as durable background
tasks, with its contracts proved by Verus.

- `src/` is the verified library:
  - `text` — trimming (Unicode white space), ASCII lower-casing, decimal integers
    (`str::parse::<i64>` semantics and rendering), searching and string building;
  - `stats` — reading `passed=…; failed=…; skipped=…` test summaries;
  - `flow` — task states and records, project path normalisation, task file names and
    storage directories, task ids;
  - `store` — the in-memory task table of a project (read after write, loading, updates,
    cancellation and waiting);
  - `runner` — the PlayMode test flow as a state machine from stage and event to next stage
    and action, with its laws (steps never go back, a final write ends the flow, the flow
    writes nothing more once it has seen that the task was cancelled);
  - `tools` — argument checks and answers of the Unity agent tools.
- `app/` is the I/O around it: the task files on disk, the per-project stores, the
  background task that performs what the state machine asks, and the tools that talk to the
  Unity editor through the `UnityBridge` trait that the host implements.
- `tests/` exercises the library on concrete values.
