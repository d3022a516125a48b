//! Session core of a desktop shell: a status bar plus an on-demand
//! application-launcher overlay.
//!
//! The crate holds the shell's decision logic: building the index of
//! launchable applications, ranking entries against a query, the selection
//! state machine, launch-command field-code expansion, the overlay
//! lifecycle, and the session router that dispatches incoming events.
//! All I/O (directory walks, desktop-entry parsing, surface creation,
//! process spawning) is left to the host, which feeds plain values in and
//! executes the effects handed back.

pub mod bar;
pub mod effect;
pub mod entry;
pub mod launch;
pub mod launcher;
pub mod ranker;
pub mod shell;
