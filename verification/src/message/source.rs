//! Who or what a line in a buffer comes from.
pub mod server;

use vstd::prelude::*;

pub use self::server::Server;
use self::server::ServerView;
use crate::user::User;
use crate::user::UserView;

verus! {

/// The source of a line.
#[derive(Debug, Clone, PartialEq, Eq)]
pub enum Source {
    /// A user said it.
    User(User),
    /// The server said it, or reports it.
    Server(Option<Server>),
    /// A user did it, as one says of oneself.
    Action,
}

/// The source of a line, by the characters of its names.
pub enum SourceView {
    User(UserView),
    Server(Option<ServerView>),
    Action,
}

impl View for Source {
    type V = SourceView;

    open spec fn view(&self) -> SourceView {
        match *self {
            Source::User(user) => SourceView::User(user@),
            Source::Server(None) => SourceView::Server(None),
            Source::Server(Some(server)) => SourceView::Server(Some(server@)),
            Source::Action => SourceView::Action,
        }
    }
}

impl SourceView {
    /// Someone said or did it.
    pub open spec fn is_personal(self) -> bool {
        self is User || self is Action
    }
}

} // verus!
