# robot_control_server

A control server for SO101 robotic arms (six Feetech STS3215 servos each),
with a REST/WebSocket API and a command-line reader.

The core is written in Verus and proved against its contracts:

- `src/text.rs` — reading and writing decimal numbers as the standard library does.
- `src/joint.rs` — the joints, their servo ids, names and normalisation modes.
- `src/keyed.rs` — a list keyed by name, modelled as a map.
- `src/calibration.rs` — joint calibrations and their lookup by servo id.
- `src/ports.rs` — choosing a serial port by USB serial number.
- `src/state.rs` — the registry of robot clients and the robot list.
- `src/commands.rs` — robot commands, the `RobotClient` trait and responses.
- `src/session.rs` — what robot and camera WebSocket sessions do on each event.
- `src/cameras.rs`, `src/frames.rs` — camera descriptions, capture settings and frame encoding (JPEG via the `image` crate).
- `src/display.rs` — the arm-state table the CLI prints (drawn by `comfy-table`).
- `src/config.rs`, `src/error.rs`, `src/health.rs`, `src/worker.rs`, `src/cli.rs`, `src/feetech.rs` — settings, API errors, diagnostics, polling rates, the CLI's choices and the per-joint reading plan.

`app/` holds the rest: the Poem server, serial and camera I/O (serialport,
rustypot, nokhwa), threads and channels, JSON (serde), and the floating-point
calibration arithmetic. `tests/` exercises the library.
