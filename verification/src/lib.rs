//! Connection acceptance, shutdown bookkeeping and server configuration for an
//! HTTP server built on hyper, with the decisions of each stage stated and
//! proved as contracts.

pub mod accept;
pub mod accept_future;
pub mod addr_incoming;
pub mod addr_incoming_config;
pub mod composite;
pub mod error;
pub mod handle;
pub mod http_config;
pub mod incoming;
pub mod pem;
pub mod serve;
pub mod server;
