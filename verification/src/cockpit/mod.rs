//! The cockpit: a workspace with a dashboard and a pane for each worker of a run.
pub mod adapter;
pub mod commands;
pub mod herdr;
pub mod laws;
pub mod layout;
pub mod types;
