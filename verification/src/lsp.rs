//! The language server.

pub mod config_cache;
pub mod diagnostics;
pub mod output;
pub mod state;
pub mod uri;
