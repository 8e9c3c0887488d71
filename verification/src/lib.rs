//! Serverless LAN peer discovery, pairing and file/text transfer: the
//! protocol core, free of sockets and clocks.
//!
//! Every function here works on plain values. The caller owns the sockets,
//! timers and locks, feeds events in, and carries out the actions and
//! notifications that come back.

pub mod commands;
pub mod discovery;
pub mod error;
mod ident;
pub mod network;
pub mod os;
pub mod state;
pub mod transfer;
