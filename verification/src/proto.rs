//! Messages of the wire protocol, taken apart into their fields.
pub mod command;

use vstd::prelude::*;

pub use self::command::Command;
pub use self::command::Numeric;
use crate::strings::chars_of;

verus! {

/// One line from a server.
#[derive(Debug, Clone)]
pub struct Message {
    pub tags: Vec<Tag>,
    pub source: Option<Source>,
    pub command: Command,
}

/// A key before the message itself, with or without a value.
#[derive(Debug, Clone)]
pub struct Tag {
    pub key: String,
    pub value: Option<String>,
}

/// Who a message comes from.
#[derive(Debug, Clone)]
pub enum Source {
    Server(String),
    User(User),
}

/// A user as a message's source names one.
#[derive(Debug)]
pub struct User {
    pub nickname: String,
    pub username: Option<String>,
    pub hostname: Option<String>,
}

impl Clone for User {
    fn clone(&self) -> (user: User)
        ensures
            user == *self,
    {
        User {
            nickname: self.nickname.clone(),
            username: match &self.username {
                Some(username) => Some(username.clone()),
                None => None,
            },
            hostname: match &self.hostname {
                Some(hostname) => Some(hostname.clone()),
                None => None,
            },
        }
    }
}

/// `c` marks the name of a channel, as its first character.
pub open spec fn is_channel_prefix(c: char) -> bool {
    c == '#' || c == '&' || c == '+' || c == '!'
}

/// `c` never stands in the name of a channel: the space and the comma separate
/// names, and the bell is a control character.
pub open spec fn is_channel_separator(c: char) -> bool {
    c == ' ' || c == ',' || c == '\u{7}'
}

/// `target` is the name of a channel.
pub open spec fn names_channel(target: Seq<char>) -> bool {
    &&& target.len() > 0
    &&& is_channel_prefix(target[0])
    &&& forall|i: int| 0 <= i < target.len() ==> !is_channel_separator(#[trigger] target[i])
}

/// Whether `target` is the name of a channel, not of a user.
pub fn is_channel(target: &str) -> (channel: bool)
    ensures
        channel == names_channel(target@),
{
    let chars = chars_of(target);
    if chars.len() == 0 {
        return false;
    }
    let first = chars[0];
    if !(first == '#' || first == '&' || first == '+' || first == '!') {
        return false;
    }
    let mut i: usize = 0;
    while i < chars.len()
        invariant
            chars@ == target@,
            i <= chars.len(),
            forall|j: int| 0 <= j < i ==> !is_channel_separator(#[trigger] target@[j]),
        decreases chars.len() - i,
    {
        let c = chars[i];
        if c == ' ' || c == ',' || c == '\u{7}' {
            assert(is_channel_separator(target@[i as int]));
            return false;
        }
        i += 1;
    }
    true
}

} // verus!
