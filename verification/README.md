# soksak-sidecar-terminal-shitty (verified adapter core)

The Shitty terminal engine is reached through a C ABI. This crate verifies, with
Verus, everything the adapter decides on its own:

- `src/abi.rs` — plain-value images of the records the ABI fills in (snapshot,
  cell, color-override report) and the bit layout of their flag words.
- `src/terminal.rs` — the terminal-state vocabulary handed to callers.
- `src/engine.rs` — decoding of snapshots, colors, cells and OSC color overrides.
- `src/input.rs` — encoder calls for pointer input, the encoder's two-call
  buffer protocol, and the wheel routes (mouse report, alternate scroll),
  including the refusal of stale routes.
- `src/text.rs` — decimal rendering of status codes in messages.

`app/lib.rs` holds the `Engine` that owns the C terminal handle, makes the
ABI calls and hands their results to the library.
