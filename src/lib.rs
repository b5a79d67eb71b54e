//! Control client for a broadcast video-format converter over its line-based
//! TCP protocol: the format table, the encoding of commands, the reading of
//! replies, and the order in which a session does its work.

pub mod error;
pub mod mode;
pub mod protocol;
pub mod session;
pub mod text;
