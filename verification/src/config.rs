//! The settings that decide how server messages read.
use vstd::prelude::*;

verus! {

/// How much of a user a server message names.
#[derive(Debug, Clone, Copy, PartialEq, Eq, Structural)]
pub enum UsernameFormat {
    /// The nickname alone.
    Short,
    /// The nickname, and behind it what is known of username and host.
    Full,
}

/// The settings for one kind of server message.
#[derive(Debug, Clone, Copy)]
pub struct ServerMessage {
    pub username_format: UsernameFormat,
}

#[derive(Debug, Clone, Copy)]
pub struct ServerMessages {
    pub join: ServerMessage,
    pub part: ServerMessage,
}

#[derive(Debug, Clone, Copy)]
pub struct Buffer {
    pub server_messages: ServerMessages,
}

#[derive(Debug, Clone, Copy)]
pub struct Config {
    pub buffer: Buffer,
}

} // verus!
