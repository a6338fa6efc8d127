# target_bridge

Message contracts, core flows and runtime provider selection for the
Target5/Target10 adapter workspace, verified with Verus.

- `src/` is the verified library: the message types and their protocol
  versioning, the Target5 → Target10 mapping and flows, the core processing
  service, the plugin loading decisions, the runtime profiles, provider
  registry and startup, the adapters' decision logic and the Windows
  simulation's replay and scenario handling. Every public function states
  what it returns in its `ensures`; the laws that relate several functions are
  public proof functions (`lemma_*`).
- `tests/` runs the library on concrete values.
- `app/` holds the programs (`target5-app`, `target10-app`,
  `windows-target5-sim`, `scenario-runner`) and what the verifier does not
  model: file and console I/O, JSON encoding with serde, the C driver and
  plugin function tables, and the in-process loopback transport.
