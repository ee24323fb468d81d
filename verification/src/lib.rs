//! A verified core for a terminal viewer of version-control working-tree
//! state: parsing machine-readable status output into a typed snapshot,
//! and an application state machine that applies user actions to
//! selection state without ever leaving it out of bounds.

pub mod config;
pub mod display;
pub mod parse;
pub mod state;
pub mod status;
pub mod theme;
pub mod text;
pub mod watch;
