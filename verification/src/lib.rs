//! The logic of an MCP server that reports usage statistics.
//!
//! A request is answered at once, or leads to a request for usage whose outcome
//! the caller hands back; see [`rpc`]. The library does no input or output.
pub mod classify;
pub mod classify_laws;
pub mod codec;
pub mod config;
pub mod config_laws;
pub mod http;
pub mod json;
pub mod json_laws;
pub mod listing_laws;
pub mod reply_laws;
pub mod rpc;
pub mod rpc_laws;
pub mod server;
pub mod server_laws;
pub mod summary;
pub mod summary_laws;
pub mod text;
pub mod text_laws;
pub mod transport;
pub mod transport_laws;
