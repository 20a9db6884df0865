//! Verified core of a server that bridges MCP clients and Vim instances.
//!
//! - [`json`] and [`serde_values`]: JSON values, and the crossing to `serde_json`.
//! - [`text`] and [`clock`]: strings and timestamps.
//! - [`protocol`]: the messages between the server and the Vim plugin.
//! - [`registry`]: the connected instances and the requests under way.
//! - [`commands`]: which commands end Vim, and whether one took effect.
//! - [`bridge`]: what messages do, and how a command runs.
//! - [`tools`], [`server`] and [`catalog`]: what MCP clients see.
//!
//! What holds throughout is stated and proved in [`text_laws`], [`value_laws`],
//! [`command_laws`], [`judgement_laws`], [`session_laws`], [`call_laws`],
//! [`listing_laws`] and [`server_laws`].

pub mod text;
pub mod clock;
pub mod json;
pub mod serde_values;
pub mod protocol;
pub mod registry;
pub mod commands;
pub mod bridge;
pub mod tools;
pub mod server;
pub mod catalog;
pub mod text_laws;
pub mod value_laws;
pub mod command_laws;
pub mod judgement_laws;
pub mod session_laws;
pub mod call_laws;
pub mod listing_laws;
pub mod server_laws;
