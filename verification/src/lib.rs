//! Client-side adapter for an embedded, command-response database engine:
//! command encoding, recursive reply decoding, and the FIFO pipelining
//! discipline that matches replies to the commands that produced them.

pub mod command;
pub mod decode;
pub mod raw;
pub mod reply;
pub mod session;

pub use reply::{Reply, ReplyError};
