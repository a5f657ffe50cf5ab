//! Control-plane state and tunnel-relay decisions for a VPN consumer node.
//!
//! The crate keeps the broker state a consumer talks to (terms, identities,
//! connections), shapes the requests and responses that travel between the
//! consumer and the node, and decides what the local relay does next.
//! Sockets, files and the HTTP transport live outside of it.

pub mod text;
pub mod codec;
pub mod json;
pub mod config_view;
pub mod state;
pub mod server;
pub mod proxy;
pub mod contact;
pub mod client;
pub mod hermes;
pub mod identity;
