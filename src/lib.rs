//! Observability middleware for an HTTP gateway: decides which transactions
//! are shipped, builds the redacted record, and frames it for the collector.

pub mod text;
pub mod json;
pub mod error;
pub mod pattern;
pub mod utils;
pub mod route_blacklist;
pub mod logger;
pub mod config;
pub mod schema;
pub mod payload;
pub mod http_client;
pub mod pool;
pub mod http_handler;
pub mod host_buffer;
pub mod certs;
