//! A minimal HTTP service: its configuration, its routing table and the
//! lifecycle of the server, from start to graceful shutdown.

pub mod config;
pub mod lifecycle;
pub mod routes;
