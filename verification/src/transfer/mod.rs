//! The transfer engine: sending a file in chunks, receiving one, and
//! sending a text.

pub mod file_receiver;
pub mod file_sender;
pub mod text_sender;
