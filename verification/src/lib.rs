//! Agent-to-Agent (A2A) protocol gateway: task store, protocol version
//! negotiation, wire-format conversions and JSON-RPC request handling.

pub mod jsonrpc;
pub mod text;
pub mod version;
pub mod types;
pub mod store;
pub mod v0;
pub mod v1;
pub mod agent_card;
pub mod handlers;
pub mod handlers_v1;
