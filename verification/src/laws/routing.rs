//! The buffer that a message belongs in, and what its line comes from.
use vstd::prelude::*;

use crate::message::reports_action;
use crate::message::source::server::Kind;
use crate::message::source::server::Server;
use crate::message::source::Source;
use crate::message::target;
use crate::message::Encoded;
use crate::message::Target;
use crate::proto;
use crate::proto::is_channel;
use crate::proto::names_channel;
use crate::proto::Command;
use crate::proto::Numeric;
use crate::user::is_plain;
use crate::user::law_plain_name_names_itself;
use crate::user::Nick;
use crate::user::User;
use crate::user::UserView;

verus! {

/// The name of a channel begins with one of four characters and holds no space, no
/// comma and no bell; any such text is one.
pub proof fn law_channel_names(name: &str, channel: bool)
    requires
        call_ensures(is_channel, (name,), channel),
    ensures
        channel == names_channel(name@),
        channel <==> {
            &&& name@.len() > 0
            &&& name@[0] == '#' || name@[0] == '&' || name@[0] == '+' || name@[0] == '!'
            &&& !name@.contains(' ')
            &&& !name@.contains(',')
            &&& !name@.contains('\u{7}')
        },
{
    let s = name@;
    if s.contains(' ') {
        let i = choose|i: int| 0 <= i < s.len() && s[i] == ' ';
        assert(proto::is_channel_separator(s[i]));
    }
    if s.contains(',') {
        let i = choose|i: int| 0 <= i < s.len() && s[i] == ',';
        assert(proto::is_channel_separator(s[i]));
    }
    if s.contains('\u{7}') {
        let i = choose|i: int| 0 <= i < s.len() && s[i] == '\u{7}';
        assert(proto::is_channel_separator(s[i]));
    }
    if !s.contains(' ') && !s.contains(',') && !s.contains('\u{7}') {
        assert forall|i: int| 0 <= i < s.len() implies !proto::is_channel_separator(
            #[trigger] s[i],
        ) by {
            assert(s.contains(s[i]));
        }
    }
}

/// What the server reports of a channel, a change of topic, a kick or a change of
/// modes, stands in that channel, whoever did it; a change of a user's own modes
/// stands with the server's own lines.
pub proof fn law_changes_stand_in_their_channel(
    message: Encoded,
    our_nick: &Nick,
    resolved: Option<User>,
    result: Option<Target>,
)
    requires
        call_ensures(target, (message, our_nick, resolved), result),
    ensures
        match message.0.command {
            Command::TOPIC(name, _) | Command::KICK(name, _, _) => {
                &&& result matches Some(Target::Channel { channel, source })
                &&& channel@ == name@
                &&& source == Source::Server(None)
            },
            Command::MODE(name, _, _) => if names_channel(name@) {
                &&& result matches Some(Target::Channel { channel, source })
                &&& channel@ == name@
                &&& source == Source::Server(None)
            } else {
                &&& result matches Some(Target::Server { source })
                &&& source == Source::Server(None)
            },
            _ => true,
        },
{
}

/// That a user joins or leaves stands in the channel, as a report of that kind on
/// that user; without a user it stands nowhere.
pub proof fn law_comings_and_goings_name_the_user(
    message: Encoded,
    our_nick: &Nick,
    resolved: Option<User>,
    result: Option<Target>,
)
    requires
        call_ensures(target, (message, our_nick, resolved), result),
        message.0.command is JOIN || message.0.command is PART,
    ensures
        match (message.0.source, message.0.command) {
            (
                Some(proto::Source::User(user)),
                Command::JOIN(name, _) | Command::PART(name, _),
            ) => {
                &&& result matches Some(Target::Channel { channel, source })
                &&& channel@ == name@
                &&& source matches Source::Server(Some(report))
                &&& report.kind == (if message.0.command is JOIN {
                    Kind::Join
                } else {
                    Kind::Part
                })
                &&& report.nick matches Some(nick)
                &&& nick.name@ == user.nickname@
            },
            _ => result is None,
        },
{
}

/// A text that a user sends to a channel, as a message or a notice, stands in that
/// channel. It comes from that user, as the lookup knows the user if it does,
/// unless it reports an action.
pub proof fn law_texts_stand_in_their_channel(
    message: Encoded,
    our_nick: &Nick,
    resolved: Option<User>,
    result: Option<Target>,
    user: proto::User,
    name: String,
    said: String,
)
    requires
        call_ensures(target, (message, our_nick, resolved), result),
        message.0.source == Some(proto::Source::User(user)),
        message.0.command == Command::PRIVMSG(name, said) || message.0.command == Command::NOTICE(
            name,
            said,
        ),
        names_channel(name@),
    ensures
        result matches Some(Target::Channel { channel, source }) && channel@ == name@ && (
        if reports_action(said@) {
            source == Source::Action
        } else {
            source matches Source::User(sender) && sender@ == (match resolved {
                Some(known) => known@,
                None => UserView::from_proto(user),
            })
        }),
{
}

/// A message that a user sends to another one stands in the buffer of the sender, or,
/// where we are the sender, of the one it goes to, who has to be named by it. It
/// comes from the sender, unless it reports an action. The lookup has no say in it.
pub proof fn law_messages_between_users(
    message: Encoded,
    our_nick: &Nick,
    resolved: Option<User>,
    result: Option<Target>,
    user: proto::User,
    name: String,
    said: String,
)
    requires
        call_ensures(target, (message, our_nick, resolved), result),
        message.0.source == Some(proto::Source::User(user)),
        message.0.command == Command::PRIVMSG(name, said),
        !names_channel(name@),
    ensures
        result is None <==> user.nickname@ == our_nick.name@ && UserView::parse(name@) is None,
        result matches Some(result) ==> {
            &&& result matches Target::Query { nick, source }
            &&& nick.name@ == (if user.nickname@ == our_nick.name@ {
                UserView::parse(name@)->0.nickname
            } else {
                user.nickname@
            })
            &&& if reports_action(said@) {
                source == Source::Action
            } else {
                source matches Source::User(sender) && sender@ == UserView::from_proto(user)
            }
        },
{
}

/// What another client of ours sends to a plain nickname stands in the buffer of
/// that nickname, as ours.
pub proof fn law_own_message_stands_with_the_partner(
    message: Encoded,
    our_nick: &Nick,
    resolved: Option<User>,
    result: Option<Target>,
    user: proto::User,
    name: String,
    said: String,
)
    requires
        call_ensures(target, (message, our_nick, resolved), result),
        message.0.source == Some(proto::Source::User(user)),
        message.0.command == Command::PRIVMSG(name, said),
        user.nickname@ == our_nick.name@,
        is_plain(name@),
        !names_channel(name@),
    ensures
        result matches Some(Target::Query { nick, source }) && nick.name@ == name@ && (
        if reports_action(said@) {
            source == Source::Action
        } else {
            source matches Source::User(sender) && sender.nickname.name@ == our_nick.name@
        }),
{
    law_plain_name_names_itself(name@);
}

/// A notice that a user sends to another one stands in the sender's buffer if it goes
/// to us, and else nowhere.
pub proof fn law_notices_between_users(
    message: Encoded,
    our_nick: &Nick,
    resolved: Option<User>,
    result: Option<Target>,
    user: proto::User,
    name: String,
    said: String,
)
    requires
        call_ensures(target, (message, our_nick, resolved), result),
        message.0.source == Some(proto::Source::User(user)),
        message.0.command == Command::NOTICE(name, said),
        !names_channel(name@),
    ensures
        result is Some <==> (UserView::parse(name@) matches Some(recipient) && recipient.nickname
            == our_nick.name@),
        result matches Some(result) ==> {
            &&& result matches Target::Query { nick, source }
            &&& nick.name@ == user.nickname@
            &&& if reports_action(said@) {
                source == Source::Action
            } else {
                source matches Source::User(sender) && sender@ == UserView::from_proto(user)
            }
        },
{
}

/// A notice to a plain nickname is for us exactly if we go by it.
pub proof fn law_notice_is_for_the_one_it_names(
    message: Encoded,
    our_nick: &Nick,
    resolved: Option<User>,
    result: Option<Target>,
    user: proto::User,
    name: String,
    said: String,
)
    requires
        call_ensures(target, (message, our_nick, resolved), result),
        message.0.source == Some(proto::Source::User(user)),
        message.0.command == Command::NOTICE(name, said),
        !names_channel(name@),
        is_plain(name@),
    ensures
        result is Some <==> name@ == our_nick.name@,
        result matches Some(result) ==> result matches Target::Query { nick, .. } && nick.name@
            == user.nickname@,
{
    law_plain_name_names_itself(name@);
}

/// A text that comes from no user stands nowhere as a message, and with the server's
/// own lines as a notice, wherever it goes.
pub proof fn law_texts_from_no_user(
    message: Encoded,
    our_nick: &Nick,
    resolved: Option<User>,
    result: Option<Target>,
)
    requires
        call_ensures(target, (message, our_nick, resolved), result),
        !(message.0.source matches Some(proto::Source::User(_))),
    ensures
        message.0.command is PRIVMSG ==> result is None,
        message.0.command is NOTICE ==> (result matches Some(Target::Server { source }) && source
            == Source::Server(None)),
{
}

/// A reply on the topic or the modes of a channel stands in the channel that its
/// second parameter names, whatever parameters follow; without one it stands
/// nowhere.
pub proof fn law_channel_replies_stand_in_their_channel(
    message: Encoded,
    our_nick: &Nick,
    resolved: Option<User>,
    result: Option<Target>,
    numeric: Numeric,
    params: Vec<String>,
)
    requires
        call_ensures(target, (message, our_nick, resolved), result),
        message.0.command == Command::Numeric(numeric, params),
        numeric == Numeric::RPL_TOPIC || numeric == Numeric::RPL_TOPICWHOTIME || numeric
            == Numeric::RPL_CHANNELMODEIS,
    ensures
        result is Some <==> params@.len() >= 2,
        result matches Some(result) ==> {
            &&& result matches Target::Channel { channel, source }
            &&& channel@ == params@[1]@
            &&& if numeric == Numeric::RPL_CHANNELMODEIS {
                source == Source::Server(None)
            } else {
                source == Source::Server(
                    Some(Server { kind: Kind::ReplyTopic, nick: None }),
                )
            }
        },
{
}

/// That a user is away stands in the buffer of the user whom the second parameter
/// names, whatever parameters follow.
pub proof fn law_absence_stands_with_the_absent(
    message: Encoded,
    our_nick: &Nick,
    resolved: Option<User>,
    result: Option<Target>,
    params: Vec<String>,
)
    requires
        call_ensures(target, (message, our_nick, resolved), result),
        message.0.command == Command::Numeric(Numeric::RPL_AWAY, params),
    ensures
        result is Some <==> params@.len() >= 2 && UserView::parse(params@[1]@) is Some,
        result matches Some(result) ==> {
            &&& result matches Target::Query { nick, source }
            &&& nick.name@ == (UserView::parse(params@[1]@)->0).nickname
            &&& source == Source::Action
        },
        params@.len() >= 2 && is_plain(params@[1]@) ==> (result matches Some(
            Target::Query { nick, .. },
        ) && nick.name@ == params@[1]@),
{
    if params@.len() >= 2 && is_plain(params@[1]@) {
        law_plain_name_names_itself(params@[1]@);
    }
}

/// All other replies and commands, whoever sends them, stand with the server's own
/// lines.
pub proof fn law_all_else_stands_with_the_server(
    message: Encoded,
    our_nick: &Nick,
    resolved: Option<User>,
    result: Option<Target>,
)
    requires
        call_ensures(target, (message, our_nick, resolved), result),
        match message.0.command {
            Command::TOPIC(_, _)
            | Command::KICK(_, _, _)
            | Command::MODE(_, _, _)
            | Command::JOIN(_, _)
            | Command::PART(_, _)
            | Command::PRIVMSG(_, _)
            | Command::NOTICE(_, _) => false,
            Command::Numeric(numeric, _) => numeric != Numeric::RPL_TOPIC && numeric
                != Numeric::RPL_TOPICWHOTIME && numeric != Numeric::RPL_CHANNELMODEIS && numeric
                != Numeric::RPL_AWAY,
            _ => true,
        },
    ensures
        result matches Some(Target::Server { source }) && source == Source::Server(None),
{
}

} // verus!
