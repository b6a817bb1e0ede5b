//! Keeps a workstation from appearing idle: tracks the time since the last
//! genuine user input and decides when, and where, to nudge the pointer.

pub mod activity;
pub mod clock;
pub mod config;
pub mod error;
pub mod mouse;
pub mod state;

pub use config::Config;
pub use error::{Result, RmmError};
pub use state::{AppState, SharedState};
