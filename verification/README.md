# cartographer_agent

The decision logic of a desktop network-monitoring agent, verified with Verus.

The agent scans the local network, keeps a list of known devices, checks
their health on a schedule, persists its state, and talks to a cloud
service (device-flow login, scan and health uploads, commands pushed by the
cloud). This crate holds the part of that which decides things:

- `src/mac.rs`: MAC address normalization.
- `src/merge.rs`: merging a fresh scan into the known devices (matching by
  IP, then MAC; keeping health data; marking unseen devices offline unless
  they lie outside the scanned subnet), with its laws.
- `src/scheduler.rs`: the scheduler state (intervals, progress and
  cancellation flags, background tasks, last scan time) and its operations.
- `src/persistence.rs`: updates of the persisted state.
- `src/health.rs`: health check outcomes, counts and progress reports.
- `src/cloud.rs`, `src/cloud_commands.rs`, `src/auth.rs`: endpoint
  addresses, status readings, payloads, the command poll loop and the
  login flow's decisions.
- `src/laws.rs`: properties relating several operations.

`app/` is the program around it (state file, HTTP, background tasks, the
handlers the user interface calls); it is ordinary Rust.
Round-trip times are held in the library as the bit pattern of the `f64`
the scanner measured.
