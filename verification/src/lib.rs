//! Session multiplexer for terminal-backed persona conversations.
//!
//! The crate holds the state machines that decide which tabs are open, which
//! persona has a session, what command starts a session's agent process and
//! what size its terminal is told about. The operating system work itself
//! (allocating a pseudo-terminal, spawning, reading and writing) is done by the
//! caller, who reports each outcome back.
//!
//! - `state`: the tab sequence and its active position.
//! - `session`, `registry`: sessions and the registry that owns them.
//! - `pty`: the agent's command line and the terminal's grid size.
//! - `app`, `panel`: tabs and sessions together, and the selection-based panel.
//! - `persona`, `knowledgebase`, `memory`, `config`, `settings`, `theme`:
//!   what the rest of the application reads and decides.
//! - `text`, `sort`, `time`: strings, stable sorting and instants.

pub mod app;
pub mod config;
pub mod knowledgebase;
pub mod memory;
pub mod panel;
pub mod persona;
pub mod pty;
pub mod registry;
pub mod session;
pub mod settings;
pub mod sort;
pub mod state;
pub mod text;
pub mod theme;
pub mod time;
