//! Supervision core for a long-running external game-server process.
//!
//! The library holds the verified logic of the supervisor: the lifecycle
//! state machine, the log-derived state (readiness, player counts), the
//! bounded in-memory log ring, and the line-level parsers.  All process
//! I/O (spawning, pipes, clocks, the `/proc` probe) is performed by the
//! surrounding application, which feeds plain values into these functions
//! and carries their decisions out.
//!
//! - [`status`] — the five lifecycle states, the transition graph, the
//!   error taxonomy;
//! - [`supervisor`] — the control plane: start/stop/command decisions,
//!   log-line processing, telemetry queries;
//! - [`patterns`] — the readiness marker and the player-count grammar;
//! - [`log_ring`] — the bounded log with first-in-first-out eviction;
//! - [`telemetry`] — the resident-memory reading of a process status
//!   report;
//! - [`properties`] — the `key=value` file format of the server-side
//!   properties;
//! - [`config`] — the launcher configuration and its defaults;
//! - [`controller`] — the start/stop/command interface a backend offers;
//! - [`text`] — byte-level searching, runs, splitting and decimal
//!   parsing.

pub mod status;
pub mod text;
pub mod patterns;
pub mod log_ring;
pub mod supervisor;
pub mod telemetry;
pub mod controller;
pub mod properties;
pub mod config;
