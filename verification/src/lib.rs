//! The message manager of a Lightning node that buys or sells liquidity over the LSPS
//! protocols.

pub mod calls;
pub mod chain;
pub mod config;
pub mod errors;
pub mod features;
pub mod key;
pub mod laws;
pub mod manager;
pub mod messages;
pub mod protocols;
pub mod queues;
