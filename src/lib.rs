//! Bootstrap and supervision logic for a desktop helper's command-line agent:
//! where its state lives, how the private runtime is laid out and fetched,
//! how a runtime archive is unpacked, whether the agent is installed, and how
//! the background agent is started and stopped.
//!
//! Every function here is a pure decision on plain values; the caller performs
//! the file, process and network work that the results describe.

pub mod platform;
pub mod layout;
pub mod locator;
pub mod download;
pub mod text;
pub mod config;
pub mod supervisor;
pub mod extract;
pub mod detect;
pub mod install;
pub mod progress;
pub mod provision;
