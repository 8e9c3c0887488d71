//! The TCP side: frames and messages, the client's message builders and the
//! server's dispatch.

pub mod protocol;
pub mod tcp_client;
pub mod tcp_server;
