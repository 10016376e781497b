//! What an IRC client shows of the traffic on a connection: which buffer a
//! message of the wire protocol belongs in, and the line of text that stands for
//! it there.
pub mod config;
pub mod ctcp;
pub mod laws;
pub mod message;
pub mod proto;
pub mod strings;
pub mod time;
pub mod user;
