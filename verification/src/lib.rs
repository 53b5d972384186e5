//! Core of a JSON-RPC client that multiplexes calls over one text-frame connection.

pub mod auth;
pub mod client;
pub mod codec;
pub mod configuration;
pub mod error;
pub mod graphql;
pub mod ident;
pub mod json;
pub mod laws;
pub mod pending;
pub mod text;
pub mod types;
