//! A screen-recording session controller: turns start / pause / resume /
//! stop / cancel requests into a parameterised capture-process invocation,
//! supervises the single capture process, and keeps a consistent session
//! record for the user interface.

pub mod text;
pub mod state;
pub mod args;
pub mod clock;
pub mod paths;
pub mod recorder;
pub mod session;
pub mod settings;
pub mod files;
pub mod devices;
