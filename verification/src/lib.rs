//! Core engine of a command-launcher application: the plugin host/runtime
//! bridge, the widget-tree reconciliation engine, and the top-level view
//! state machine.
//!
//! The rendering backend, OS integration, the full-text search index and all
//! process bootstrapping are external collaborators; they talk to this crate
//! through plain values.

pub mod applications;
pub mod bridge;
pub mod container;
pub mod dirs;
pub mod images;
pub mod model;
pub mod plugins;
pub mod runtime;
pub mod state;
pub mod widget;
