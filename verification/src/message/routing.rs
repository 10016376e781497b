//! Which buffer a message belongs in.
use vstd::prelude::*;

use super::is_action;
use super::reports_action;
use super::sender;
use super::source::server::Kind;
use super::source::server::ServerView;
use super::source::Server;
use super::source::Source;
use super::source::SourceView;
use super::viewed;
use super::Encoded;
use super::Target;
use super::TargetView;
use crate::proto;
use crate::proto::is_channel;
use crate::proto::names_channel;
use crate::proto::Command;
use crate::proto::Numeric;
use crate::user::Nick;
use crate::user::User;
use crate::user::UserView;

verus! {

/// A text counts as said by its sender, unless it reports an action.
pub open spec fn said(user: UserView, text: Seq<char>) -> SourceView {
    if reports_action(text) {
        SourceView::Action
    } else {
        SourceView::User(user)
    }
}

/// The answer of a lookup, or the user as it was known before.
pub open spec fn resolved_or(resolved: Option<UserView>, user: UserView) -> UserView {
    match resolved {
        Some(resolved) => resolved,
        None => user,
    }
}

/// The line for an event that the server reports in a channel.
pub open spec fn report(channel: Seq<char>, server: Option<ServerView>) -> TargetView {
    TargetView::Channel { channel, source: SourceView::Server(server) }
}

/// The line for a report of a given kind on what the user `nick` does.
pub open spec fn report_on(channel: Seq<char>, kind: Kind, nick: Seq<char>) -> TargetView {
    report(channel, Some(ServerView { kind, nick: Some(nick) }))
}

/// The line for whatever belongs to no channel and no user.
pub open spec fn server_line() -> TargetView {
    TargetView::Server { source: SourceView::Server(None) }
}

/// Where a text to `target` belongs that is no notice.
///
/// With a channel, that is the channel. Between users, it is the buffer of the
/// other one: of the sender, or, for what another client of ours has sent, of
/// the one it was sent to.
pub open spec fn message_target(
    target: Seq<char>,
    text: Seq<char>,
    user: Option<UserView>,
    our_nick: Seq<char>,
    resolved: Option<UserView>,
) -> Option<TargetView> {
    match user {
        None => None,
        Some(user) => if names_channel(target) {
            Some(
                TargetView::Channel {
                    channel: target,
                    source: said(resolved_or(resolved, user), text),
                },
            )
        } else if user.nickname != our_nick {
            Some(TargetView::Query { nick: user.nickname, source: said(user, text) })
        } else {
            match UserView::parse(target) {
                Some(partner) => Some(
                    TargetView::Query { nick: partner.nickname, source: said(user, text) },
                ),
                None => None,
            }
        },
    }
}

/// Where a notice to `target` belongs: as any text, where a user sent it to a
/// channel or to us; nowhere, where a user sent it to someone else; and with the
/// server's own lines, where no user sent it.
pub open spec fn notice_target(
    target: Seq<char>,
    text: Seq<char>,
    user: Option<UserView>,
    our_nick: Seq<char>,
    resolved: Option<UserView>,
) -> Option<TargetView> {
    match user {
        None => Some(server_line()),
        Some(user) => if names_channel(target) {
            Some(
                TargetView::Channel {
                    channel: target,
                    source: said(resolved_or(resolved, user), text),
                },
            )
        } else {
            match UserView::parse(target) {
                Some(recipient) => if recipient.nickname == our_nick {
                    Some(TargetView::Query { nick: user.nickname, source: said(user, text) })
                } else {
                    None
                },
                None => None,
            }
        },
    }
}

/// Where a reply belongs: replies on a channel in that channel, if they name
/// one; the news that a user is away in that user's buffer; and all others with
/// the server's own lines.
pub open spec fn reply_target(numeric: Numeric, params: Seq<String>) -> Option<TargetView> {
    match numeric {
        Numeric::RPL_TOPIC | Numeric::RPL_TOPICWHOTIME => if params.len() > 1 {
            Some(report(params[1]@, Some(ServerView { kind: Kind::ReplyTopic, nick: None })))
        } else {
            None
        },
        Numeric::RPL_CHANNELMODEIS => if params.len() > 1 {
            Some(report(params[1]@, None))
        } else {
            None
        },
        Numeric::RPL_AWAY => if params.len() > 1 {
            match UserView::parse(params[1]@) {
                Some(user) => Some(
                    TargetView::Query { nick: user.nickname, source: SourceView::Action },
                ),
                None => None,
            }
        } else {
            None
        },
        _ => Some(server_line()),
    }
}

/// The buffer that `message` belongs in, if any, for a client that goes by
/// `our_nick`. `resolved` is what is known of the sender's attributes in the
/// channel that the message names.
pub open spec fn target_view(
    message: proto::Message,
    our_nick: Seq<char>,
    resolved: Option<UserView>,
) -> Option<TargetView> {
    let user = sender(message);
    match message.command {
        Command::MODE(target, _, _) => Some(
            if names_channel(target@) {
                report(target@, None)
            } else {
                server_line()
            },
        ),
        Command::TOPIC(channel, _) => Some(report(channel@, None)),
        Command::KICK(channel, _, _) => Some(report(channel@, None)),
        Command::PART(channel, _) => match user {
            Some(user) => Some(report_on(channel@, Kind::Part, user.nickname)),
            None => None,
        },
        Command::JOIN(channel, _) => match user {
            Some(user) => Some(report_on(channel@, Kind::Join, user.nickname)),
            None => None,
        },
        Command::Numeric(numeric, params) => reply_target(numeric, params@),
        Command::PRIVMSG(target, text) => message_target(
            target@,
            text@,
            user,
            our_nick,
            resolved,
        ),
        Command::NOTICE(target, text) => notice_target(target@, text@, user, our_nick, resolved),
        _ => Some(server_line()),
    }
}

/// What the text of a message comes from.
fn said_by(user: User, text: &str) -> (source: Source)
    ensures
        source@ == said(user@, text@),
{
    if is_action(text) {
        Source::Action
    } else {
        Source::User(user)
    }
}

/// The buffer that a reply belongs in.
fn target_of_reply(numeric: Numeric, params: &Vec<String>) -> (target: Option<Target>)
    ensures
        viewed(target) == reply_target(numeric, params@),
{
    match numeric {
        Numeric::RPL_TOPIC | Numeric::RPL_TOPICWHOTIME => {
            if params.len() <= 1 {
                return None;
            }
            Some(
                Target::Channel {
                    channel: params[1].clone(),
                    source: Source::Server(Some(Server::new(Kind::ReplyTopic, None))),
                },
            )
        },
        Numeric::RPL_CHANNELMODEIS => {
            if params.len() <= 1 {
                return None;
            }
            Some(Target::Channel { channel: params[1].clone(), source: Source::Server(None) })
        },
        Numeric::RPL_AWAY => {
            if params.len() <= 1 {
                return None;
            }
            let target = User::parse(params[1].as_str())?;
            Some(Target::Query { nick: target.nickname, source: Source::Action })
        },
        _ => Some(Target::Server { source: Source::Server(None) }),
    }
}

/// The buffer that `message` belongs in, if any, for a client that goes by
/// `our_nick`. `resolved` is what is known of the sender's attributes in the
/// channel that the message names.
pub fn target(message: Encoded, our_nick: &Nick, resolved: Option<User>) -> (target: Option<Target>)
    ensures
        viewed(target) == target_view(message.0, our_nick@, viewed(resolved)),
{
    let user = message.user();

    match message.0.command {
        // Channel
        Command::MODE(target, _, _) => if is_channel(target.as_str()) {
            Some(Target::Channel { channel: target, source: Source::Server(None) })
        } else {
            Some(Target::Server { source: Source::Server(None) })
        },
        Command::TOPIC(channel, _) | Command::KICK(channel, _, _) => Some(
            Target::Channel { channel, source: Source::Server(None) },
        ),
        Command::PART(channel, _) => Some(
            Target::Channel {
                channel,
                source: Source::Server(Some(Server::new(Kind::Part, Some(user?.nickname)))),
            },
        ),
        Command::JOIN(channel, _) => Some(
            Target::Channel {
                channel,
                source: Source::Server(Some(Server::new(Kind::Join, Some(user?.nickname)))),
            },
        ),
        Command::Numeric(numeric, params) => target_of_reply(numeric, &params),
        Command::PRIVMSG(target, text) => {
            let user = user?;
            if is_channel(target.as_str()) {
                let source = said_by(resolved.unwrap_or(user), text.as_str());
                Some(Target::Channel { channel: target, source })
            } else if user.nickname() == our_nick.as_nick_ref() {
                // Message from ourself, from another client.
                let partner = User::parse(target.as_str())?;
                Some(
                    Target::Query { nick: partner.nickname, source: said_by(user, text.as_str()) },
                )
            } else {
                // Message from conversation partner.
                let nick = user.nickname().to_owned();
                Some(Target::Query { nick, source: said_by(user, text.as_str()) })
            }
        },
        Command::NOTICE(target, text) => match user {
            Some(user) => if is_channel(target.as_str()) {
                let source = said_by(resolved.unwrap_or(user), text.as_str());
                Some(Target::Channel { channel: target, source })
            } else {
                let recipient = User::parse(target.as_str())?;
                if recipient.nickname() == our_nick.as_nick_ref() {
                    let nick = user.nickname().to_owned();
                    Some(Target::Query { nick, source: said_by(user, text.as_str()) })
                } else {
                    None
                }
            },
            None => Some(Target::Server { source: Source::Server(None) }),
        },
        // Server
        Command::PASS(_)
        | Command::NICK(_)
        | Command::USER(_, _)
        | Command::OPER(_, _)
        | Command::QUIT(_)
        | Command::SQUIT(_, _)
        | Command::NAMES(_)
        | Command::LIST(_, _)
        | Command::INVITE(_, _)
        | Command::MOTD(_)
        | Command::LUSERS
        | Command::VERSION(_)
        | Command::STATS(_, _)
        | Command::LINKS
        | Command::TIME(_)
        | Command::CONNECT(_, _, _)
        | Command::ADMIN(_)
        | Command::INFO
        | Command::WHO(_, _, _)
        | Command::WHOIS(_, _)
        | Command::WHOWAS(_, _)
        | Command::KILL(_, _)
        | Command::PING(_)
        | Command::PONG(_, _)
        | Command::ERROR(_)
        | Command::AWAY(_)
        | Command::REHASH
        | Command::RESTART
        | Command::WALLOPS(_)
        | Command::USERHOST(_)
        | Command::CAP(_, _, _, _)
        | Command::AUTHENTICATE(_)
        | Command::BATCH(_, _)
        | Command::CNOTICE(_, _, _)
        | Command::CPRIVMSG(_, _, _)
        | Command::KNOCK(_, _)
        | Command::TAGMSG(_)
        | Command::USERIP(_)
        | Command::HELP(_)
        | Command::Unknown(_, _) => Some(Target::Server { source: Source::Server(None) }),
    }
}

} // verus!
