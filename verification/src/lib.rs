//! Supervision of one worker process and routing of the events it reports.
//!
//! The crate holds the decisions only: how a line of the worker's output is
//! decoded, which side effects an event asks for, how the supervisor moves
//! between its phases, and what is written to the worker. Spawning the
//! process, reading its streams and driving windows is the host's part; it
//! performs what the functions here return.

pub mod codec;
pub mod commands;
pub mod effects;
pub mod handoff;
pub mod json;
pub mod launch;
pub mod record;
pub mod requests;
pub mod router;
pub mod supervisor;
mod text;
pub mod tray;
