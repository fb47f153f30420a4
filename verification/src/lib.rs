//! A TCP networking framework core: framing, connection state machines,
//! admission control and message dispatch, with machine-checked contracts.
pub mod error;
pub mod buffer;
pub mod framer;
pub mod connection;
pub mod message;
pub mod channel;
pub mod dispatcher;
pub mod socket;
pub mod config;
pub mod listener;
pub mod component;
pub mod builder;
