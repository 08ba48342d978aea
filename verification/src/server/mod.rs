//! The server side: protocol-version dispatch and the decisions of a
//! connection, the API and the configuration.

pub mod protocol;
pub mod framing;
pub mod connection;
pub mod bursts;
pub mod api;
pub mod config;
pub mod shutdown;
pub mod client_view;
