//! An endpoint enforcement agent, as a verified library.
//!
//! The agent keeps a list of applications that the user is not to run, scans
//! the process table for them, terminates what it finds, and shows through
//! its shield whether enforcement is on. An idle detector locks the shield
//! again after a time without activity, and a stealth controller can
//! disguise the agent's own process.
//!
//! The library holds the decisions: it is handed clock readings, process
//! snapshots and the answers of the platform as plain values, and says what
//! follows. Reading the clock, the process table and the store is the
//! caller's work. The one thing the library does to the system itself is to
//! send the termination signal.
//!
//! Every executable function carries a contract over the mathematical view of
//! its data, and the laws that relate several functions are stated as proof
//! functions beside them.

pub mod auth;
pub mod autostart;
pub mod candidates;
pub mod idle;
pub mod matcher;
pub mod monitor;
pub mod records;
pub mod state;
pub mod stealth;
pub mod text;
