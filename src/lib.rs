//! Real-time presence and message routing for a chat service.
//!
//! The library holds the decisions; the hosting application owns the
//! sockets, the database and the clock and hands their results in as
//! plain values.

pub mod auth;
pub mod connection;
pub mod dispatch;
pub mod handshake;
pub mod helpers;
pub mod logging;
pub mod models;
pub mod protocol;
pub mod registry;
pub mod repository;
pub mod response;
