//! Shared state: the peer registry, the pairing states and the transfer
//! table.

pub mod app_state;
pub mod peer;
pub mod table;
pub mod transfer;
