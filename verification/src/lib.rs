//! Client side of the uRPC request/reply protocol.
//!
//! A [`request::Request`] writes one frame into a caller's buffer and arms
//! the [`session::Session`]; the session then takes the reply apart as its
//! bytes arrive, header first, and hands the finished reply back to the
//! request that is waiting for it.

pub mod wire;
pub mod engine;
pub mod payload;
pub mod error;
pub mod descriptor;
pub mod session;
pub mod request;
pub mod waiter;
pub mod laws;
