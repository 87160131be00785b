//! The core of a terminal client for browsing and acting on a version-control
//! working copy: parsers that turn the textual output of the version-control
//! tool into typed records, and the interaction state machine (panels,
//! selection cursors, input modes, and the exchange with the repository
//! gateway) that the interface drives.
//!
//! Running commands, drawing, colouring and the clipboard are left to the
//! program around the library: the state machine names the command it needs
//! ([`state::GitCommand`]) and is handed back the outcome.

pub mod branch;
pub mod cursor;
pub mod diff;
pub mod input;
pub mod log;
pub mod model;
pub mod stash;
pub mod state;
pub mod status;
pub mod syntax;
pub mod text;
