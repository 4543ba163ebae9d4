//! Supervision of a local backend ("sidecar") process: port allocation,
//! launch planning, liveness watching, readiness probing and shutdown.
//!
//! Every decision is made by verified code here; the host application performs
//! the I/O that each decision asks for and reports back what it observed.

pub mod poll;
pub mod supervisor;
pub mod text;
pub mod watchdog;
pub mod probe;
pub mod shutdown;
pub mod ports;
pub mod paths;
pub mod launch;
pub mod config;
pub mod setup;
pub mod ui;
