//! The durable workflow state of coding runs: which run may work on a repository, what its workers
//! do, what they ask, how their work is merged and how a run ends.
pub mod attention;
pub mod cockpit;
pub mod decode;
pub mod digest;
pub mod domain;
pub mod economics;
pub mod encode;
pub mod error;
pub mod event_kind;
pub mod events;
pub mod incidents;
pub mod json;
pub mod names;
pub mod payloads;
pub mod rows;
pub mod shell;
pub mod store;
pub mod table;
pub mod text;
pub mod time;
pub mod typed;
pub mod views;
