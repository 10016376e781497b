//! What a server reports.
use vstd::prelude::*;

use crate::user::Nick;

verus! {

/// The kinds of report that can be told apart.
#[derive(Debug, Clone, Copy, PartialEq, Eq, Structural)]
pub enum Kind {
    Join,
    Part,
    ReplyTopic,
}

/// A report, and whom it is about, if anyone.
#[derive(Debug, Clone, PartialEq, Eq)]
pub struct Server {
    pub kind: Kind,
    pub nick: Option<Nick>,
}

/// A report, by the characters of the nickname in it.
pub struct ServerView {
    pub kind: Kind,
    pub nick: Option<Seq<char>>,
}

impl View for Server {
    type V = ServerView;

    open spec fn view(&self) -> ServerView {
        ServerView {
            kind: self.kind,
            nick: match self.nick {
                Some(nick) => Some(nick@),
                None => None,
            },
        }
    }
}

impl Server {
    pub fn new(kind: Kind, nick: Option<Nick>) -> (server: Server)
        ensures
            server == (Server { kind, nick }),
    {
        Server { kind, nick }
    }
}

} // verus!
