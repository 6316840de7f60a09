//! Core of a live media server: the stream registry, per-stream transceiver
//! state, traffic statistics, and the server configuration model.

pub mod errors;
pub mod session;
pub mod table;
pub mod stream;
pub mod define;
pub mod statistics;
pub mod ranking;
pub mod transceiver;
pub mod hub;
pub mod config;
pub mod auth;
pub mod relay;
pub mod route;
