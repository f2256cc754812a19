//! A verified core for a real-time chat backend: rooms that fan messages out
//! to their subscribers over a bounded log, a registry of rooms keyed by name,
//! the wire codec, and the decisions a connection session takes.

pub mod schemas;
pub mod room;
pub mod registry;
pub mod json;
pub mod ids;
pub mod codec;
pub mod text;
pub mod store;
pub mod session;
pub mod kafka;
pub mod s3;
pub mod error;
pub mod images;
pub mod api_response;
pub mod proxy;
pub mod logger;
pub mod server;
