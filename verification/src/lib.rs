//! Verified core of the Auralogs logging client.

pub mod bridge;
pub mod client;
pub mod config;
pub mod delivery;
pub mod entry;
pub mod error;
pub mod metadata;
pub mod text;
pub mod time;
pub mod transport;
