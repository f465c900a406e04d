//! Session detection, error values and input-setting bookkeeping for the
//! cosmolith configuration bridge.

pub mod error;
pub mod text;
pub mod identifier;
pub mod watcher;
