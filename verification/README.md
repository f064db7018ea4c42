# webox

A browser shell for memory-hungry web applications (large WebGL scenes,
WASM-heavy tools, big DOMs), built on CEF with an egui window. The library in
`src/` holds its decision logic, each function with a contract proved by
Verus:

- `config`: development, production and simulated configurations and the
  platform paths they resolve;
- `memory`: per-tab pressure thresholds and escalation, recovery reports,
  the process-memory collector and the reading of `/proc` scans;
- `ui`: the window and tab model;
- `engine`: the browser-instance state machine, its readiness check, its
  history, surfaces and input, and the application of CEF callbacks;
- `runtime_env`: the detected runtime environment and the CEF switches for it;
- `runtime_api`: the embeddable runtime;
- `shell`: windows that mirror the engine's instances, commands and telemetry;
- `browser`: the browser window's session and its chrome actions;
- `harness`: outcome classification and reports of the workload harness.

`app/` is the executable around it: the eframe window, the CEF handlers and
browsers, the `/proc` reads, the clock and the file system. `webox` opens the
browser; `webox harness supported` (or `constrained`) writes a validation
report under `.webox/validation/`.
