//! Backend of a minimal desktop application shell.
//!
//! Two pieces make up the backend. The command surface ([`system`]) holds the
//! one callable operation, `get_app_info`, together with the dispatch from a
//! command name to its handler. The bootstrap sequencer ([`bootstrap`]) is the
//! ordered startup procedure — register the capability plugins, register the
//! command handlers, locate and show the main window, enter the event loop —
//! expressed as a state machine whose decisions are verified; the host
//! process drives it, performing each outside step and reporting its outcome.

pub mod bootstrap;
pub mod system;
