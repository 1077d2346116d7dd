//! HTTP client and server decisions.

pub mod body;
pub mod client;
pub mod config;
pub mod connection_pool;
pub mod driver;
pub mod error;
pub mod exchange;
pub mod failure;
pub mod headers;
pub mod http2;
pub mod message;
pub mod pool;
pub mod pump;
pub mod read_buffer;
pub mod serve;
pub mod server;
pub mod tls;
pub mod trailers;
pub mod uri;
