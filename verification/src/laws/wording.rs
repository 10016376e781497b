//! The text of the line that stands for a message.
use vstd::prelude::*;

use super::user::law_from_proto_keeps_fields;
use crate::config::Config;
use crate::ctcp::QueryView;
use crate::message::text;
use crate::message::Encoded;
use crate::proto;
use crate::proto::names_channel;
use crate::proto::Command;
use crate::proto::Numeric;
use crate::strings::after;
use crate::strings::decimal;
use crate::strings::join;
use crate::strings::texts;
use crate::time::rfc2822_text;
use crate::time::timeago_text;
use crate::time::utc_text;
use crate::user::Nick;
use crate::user::User;
use crate::user::UserView;

verus! {

/// How a line names the one who acts: as the lookup knows the user, if it does, and
/// else as the message does.
pub open spec fn is_named(shown: UserView, user: proto::User, resolved: Option<User>) -> bool {
    match resolved {
        Some(known) => shown == known@,
        None => {
            &&& shown.nickname == user.nickname@
            &&& shown.username is Some <==> user.username is Some
            &&& user.username matches Some(username) ==> shown.username == Some(username@)
            &&& shown.hostname is Some <==> user.hostname is Some
            &&& user.hostname matches Some(hostname) ==> shown.hostname == Some(hostname@)
            &&& shown.access_level is Member
        },
    }
}

/// There is only one user whom a line can name.
proof fn lemma_named_user(shown: UserView, user: proto::User, resolved: Option<User>)
    requires
        is_named(shown, user, resolved),
    ensures
        shown == (match resolved {
            Some(known) => known@,
            None => UserView::from_proto(user),
        }),
{
    if resolved is None {
        law_from_proto_keeps_fields(user);
    }
}

/// A change of topic is told with the new topic; where there is none, it is not told.
pub proof fn law_topic_line(
    message: &Encoded,
    our_nick: &Nick,
    config: &Config,
    resolved: &Option<User>,
    line: Option<String>,
    user: proto::User,
    shown: UserView,
    channel: String,
    topic: Option<String>,
)
    requires
        call_ensures(text, (message, our_nick, config, resolved), line),
        message.0.source == Some(proto::Source::User(user)),
        is_named(shown, user, *resolved),
        message.0.command == Command::TOPIC(channel, topic),
    ensures
        line is Some <==> topic is Some,
        line matches Some(line) ==> line@ == " ∙ "@ + shown.display_text() + " changed topic to "@
            + (topic->0)@,
{
    lemma_named_user(shown, user, *resolved);
}

/// That a user leaves is told with the user in the format for it, and the reason, if
/// there is one, in brackets at the end.
pub proof fn law_part_line(
    message: &Encoded,
    our_nick: &Nick,
    config: &Config,
    resolved: &Option<User>,
    line: Option<String>,
    user: proto::User,
    shown: UserView,
    channel: String,
    reason: Option<String>,
)
    requires
        call_ensures(text, (message, our_nick, config, resolved), line),
        message.0.source == Some(proto::Source::User(user)),
        is_named(shown, user, *resolved),
        message.0.command == Command::PART(channel, reason),
    ensures
        line matches Some(line) && line@ == "⟵ "@ + shown.formatted_text(
            config.buffer.server_messages.part.username_format,
        ) + " has left the channel"@ + (match reason {
            Some(reason) => " ("@ + reason@ + ")"@,
            None => seq![],
        }),
{
    lemma_named_user(shown, user, *resolved);
}

/// That a user joins is told with the user in the format for it, unless it is us.
pub proof fn law_join_line(
    message: &Encoded,
    our_nick: &Nick,
    config: &Config,
    resolved: &Option<User>,
    line: Option<String>,
    user: proto::User,
    shown: UserView,
    channel: String,
    key: Option<String>,
)
    requires
        call_ensures(text, (message, our_nick, config, resolved), line),
        message.0.source == Some(proto::Source::User(user)),
        is_named(shown, user, *resolved),
        message.0.command == Command::JOIN(channel, key),
    ensures
        line is Some <==> shown.nickname != our_nick.name@,
        line matches Some(line) ==> line@ == "⟶ "@ + shown.formatted_text(
            config.buffer.server_messages.join.username_format,
        ) + " has joined the channel"@,
{
    lemma_named_user(shown, user, *resolved);
}

/// A kick is told with the one who is kicked, the one who kicks, and the comment, if
/// there is one, in brackets at the end. If it is us, we are addressed.
pub proof fn law_kick_line(
    message: &Encoded,
    our_nick: &Nick,
    config: &Config,
    resolved: &Option<User>,
    line: Option<String>,
    user: proto::User,
    shown: UserView,
    channel: String,
    victim: String,
    comment: Option<String>,
)
    requires
        call_ensures(text, (message, our_nick, config, resolved), line),
        message.0.source == Some(proto::Source::User(user)),
        is_named(shown, user, *resolved),
        message.0.command == Command::KICK(channel, victim, comment),
    ensures
        line matches Some(line) && line@ == "⟵ "@ + (if victim@ == our_nick.name@ {
            "you have"@
        } else {
            victim@ + " has"@
        }) + " been kicked by "@ + shown.display_text() + (match comment {
            Some(comment) => " ("@ + comment@ + ")"@,
            None => seq![],
        }),
{
    lemma_named_user(shown, user, *resolved);
}

/// A change of a channel's modes is told with the modes and their arguments, each with
/// one space between; a change of a user's modes is not told.
pub proof fn law_mode_line(
    message: &Encoded,
    our_nick: &Nick,
    config: &Config,
    resolved: &Option<User>,
    line: Option<String>,
    user: proto::User,
    shown: UserView,
    name: String,
    modes: Vec<String>,
    args: Vec<String>,
    mode_words: Seq<Seq<char>>,
    arg_words: Seq<Seq<char>>,
)
    requires
        call_ensures(text, (message, our_nick, config, resolved), line),
        message.0.source == Some(proto::Source::User(user)),
        is_named(shown, user, *resolved),
        message.0.command == Command::MODE(name, modes, args),
        mode_words.len() == modes@.len(),
        forall|i: int| 0 <= i < modes@.len() ==> #[trigger] mode_words[i] == modes@[i]@,
        arg_words.len() == args@.len(),
        forall|i: int| 0 <= i < args@.len() ==> #[trigger] arg_words[i] == args@[i]@,
    ensures
        line is Some <==> names_channel(name@),
        line matches Some(line) ==> line@ == " ∙ "@ + shown.display_text() + " sets mode "@ + join(
            mode_words,
            seq![' '],
        ) + seq![' '] + join(arg_words, seq![' ']),
{
    lemma_named_user(shown, user, *resolved);
    reveal_strlit(" ");
    assert(" "@ =~= seq![' ']);
    assert(mode_words =~= texts(modes@));
    assert(arg_words =~= texts(args@));
}

/// The comment of a kick, and the reason for leaving, change nothing of the line but
/// that they stand in brackets behind it, whoever is kicked, leaves or kicks.
pub proof fn law_remark_is_a_suffix(
    message: &Encoded,
    plain: &Encoded,
    our_nick: &Nick,
    config: &Config,
    resolved: &Option<User>,
    line: Option<String>,
    plain_line: Option<String>,
    remark: String,
)
    requires
        call_ensures(text, (message, our_nick, config, resolved), line),
        call_ensures(text, (plain, our_nick, config, resolved), plain_line),
        message.0.source == plain.0.source,
        match (message.0.command, plain.0.command) {
            (Command::KICK(a, victim, Some(comment)), Command::KICK(b, other, None)) => a == b
                && victim == other && comment == remark,
            (Command::PART(a, Some(reason)), Command::PART(b, None)) => a == b && reason == remark,
            _ => false,
        },
    ensures
        line is Some <==> plain_line is Some,
        line is Some <==> message.0.source matches Some(proto::Source::User(_)),
        line matches Some(line) ==> line@ == (plain_line->0)@ + seq![' ', '('] + remark@
            + seq![')'],
{
    reveal_strlit(" (");
    reveal_strlit(")");
    assert(" ("@ =~= seq![' ', '(']);
    assert(")"@ =~= seq![')']);
    if let Some(line) = line {
        assert(line@ =~= (plain_line->0)@ + seq![' ', '('] + remark@ + seq![')']);
    }
}

/// What no user does is not told: no event has a line without one.
pub proof fn law_no_event_without_a_user(
    message: &Encoded,
    our_nick: &Nick,
    config: &Config,
    resolved: &Option<User>,
    line: Option<String>,
)
    requires
        call_ensures(text, (message, our_nick, config, resolved), line),
        !(message.0.source matches Some(proto::Source::User(_))),
        message.0.command is TOPIC || message.0.command is PART || message.0.command is JOIN
            || message.0.command is KICK || message.0.command is MODE,
    ensures
        line is None,
{
}

/// A notice is told as it is written, and so is a message, unless it comes from a user
/// and is a query; then the line tells what the user does.
pub proof fn law_texts_are_told_as_written(
    message: &Encoded,
    our_nick: &Nick,
    config: &Config,
    resolved: &Option<User>,
    line: Option<String>,
    said: String,
)
    requires
        call_ensures(text, (message, our_nick, config, resolved), line),
        match message.0.command {
            Command::PRIVMSG(_, it) | Command::NOTICE(_, it) => it == said,
            _ => false,
        },
    ensures
        match (message.0.command, message.0.source, QueryView::parse(said@)) {
            (Command::PRIVMSG(_, _), Some(proto::Source::User(user)), Some(query)) => {
                line matches Some(line) && line@ == " ∙ "@ + user.nickname@ + " "@ + query.params
            },
            _ => line matches Some(line) && line@ == said@,
        },
{
}

/// Commands that have no wording have no line.
pub proof fn law_silent_commands(
    message: &Encoded,
    our_nick: &Nick,
    config: &Config,
    resolved: &Option<User>,
    line: Option<String>,
)
    requires
        call_ensures(text, (message, our_nick, config, resolved), line),
        match message.0.command {
            Command::TOPIC(_, _)
            | Command::PART(_, _)
            | Command::JOIN(_, _)
            | Command::KICK(_, _, _)
            | Command::MODE(_, _, _)
            | Command::PRIVMSG(_, _)
            | Command::NOTICE(_, _)
            | Command::Numeric(_, _)
            | Command::Unknown(_, _) => false,
            _ => true,
        },
    ensures
        line is None,
{
}

/// A reply without a wording of its own, whatever its number, and a command that is not
/// known have a line: all parameters but the first, in order, with one space between
/// each two.
pub proof fn law_other_replies_are_told_in_full(
    message: &Encoded,
    our_nick: &Nick,
    config: &Config,
    resolved: &Option<User>,
    line: Option<String>,
    params: Vec<String>,
    words: Seq<Seq<char>>,
)
    requires
        call_ensures(text, (message, our_nick, config, resolved), line),
        match message.0.command {
            Command::Numeric(Numeric::Other(_), it) | Command::Unknown(_, it) => it == params,
            _ => false,
        },
        words.len() == (if params@.len() == 0 {
            0
        } else {
            params@.len() - 1
        }),
        forall|i: int| 0 <= i < words.len() ==> #[trigger] words[i] == params@[i + 1]@,
    ensures
        line matches Some(line) && line@ == join(words, seq![' ']),
{
    reveal_strlit(" ");
    assert(" "@ =~= seq![' ']);
    assert(after(texts(params@), 1) =~= words);
}

/// Any two replies without a wording of their own that have the same parameters have
/// the same line, whatever their numbers, whoever sends them and whoever we are.
pub proof fn law_other_replies_go_by_parameters(
    message: &Encoded,
    our_nick: &Nick,
    config: &Config,
    resolved: &Option<User>,
    line: Option<String>,
    other: &Encoded,
    other_nick: &Nick,
    other_config: &Config,
    other_resolved: &Option<User>,
    other_line: Option<String>,
)
    requires
        call_ensures(text, (message, our_nick, config, resolved), line),
        call_ensures(text, (other, other_nick, other_config, other_resolved), other_line),
        match (message.0.command, other.0.command) {
            (Command::Numeric(Numeric::Other(_), a), Command::Numeric(Numeric::Other(_), b)) => a
                == b,
            (Command::Numeric(Numeric::Other(_), a), Command::Unknown(_, b)) => a == b,
            _ => false,
        },
    ensures
        line matches Some(line) && other_line matches Some(other_line) && line@ == other_line@,
{
}

/// The modes of a channel are told by all parameters from the third on, in order, with
/// one space between each two.
pub proof fn law_channel_mode_reply(
    message: &Encoded,
    our_nick: &Nick,
    config: &Config,
    resolved: &Option<User>,
    line: Option<String>,
    params: Vec<String>,
    words: Seq<Seq<char>>,
)
    requires
        call_ensures(text, (message, our_nick, config, resolved), line),
        message.0.command == Command::Numeric(Numeric::RPL_CHANNELMODEIS, params),
        words.len() == (if params@.len() <= 2 {
            0
        } else {
            params@.len() - 2
        }),
        forall|i: int| 0 <= i < words.len() ==> #[trigger] words[i] == params@[i + 2]@,
    ensures
        line matches Some(line) && line@ == " ∙ Channel mode is "@ + join(words, seq![' ']),
{
    reveal_strlit(" ");
    assert(" "@ =~= seq![' ']);
    assert(after(texts(params@), 2) =~= words);
}

/// The topic is told by the third parameter.
pub proof fn law_topic_reply(
    message: &Encoded,
    our_nick: &Nick,
    config: &Config,
    resolved: &Option<User>,
    line: Option<String>,
    params: Vec<String>,
)
    requires
        call_ensures(text, (message, our_nick, config, resolved), line),
        message.0.command == Command::Numeric(Numeric::RPL_TOPIC, params),
    ensures
        line is Some <==> params@.len() >= 3,
        line matches Some(line) ==> line@ == " ∙ topic is "@ + params@[2]@,
{
    assert(texts(params@).len() == params@.len());
    assert(forall|i: int| 0 <= i < params@.len() ==> #[trigger] texts(params@)[i] == params@[i]@);
}

/// The end of what is told of a user is not told itself.
pub proof fn law_end_of_whois_reply(
    message: &Encoded,
    our_nick: &Nick,
    config: &Config,
    resolved: &Option<User>,
    line: Option<String>,
    params: Vec<String>,
)
    requires
        call_ensures(text, (message, our_nick, config, resolved), line),
        message.0.command == Command::Numeric(Numeric::RPL_ENDOFWHOIS, params),
    ensures
        line is None,
{
    assert(texts(params@).len() == params@.len());
    assert(forall|i: int| 0 <= i < params@.len() ==> #[trigger] texts(params@)[i] == params@[i]@);
}

/// The server of a user is told by name, with the region in brackets.
pub proof fn law_whois_server_reply(
    message: &Encoded,
    our_nick: &Nick,
    config: &Config,
    resolved: &Option<User>,
    line: Option<String>,
    params: Vec<String>,
)
    requires
        call_ensures(text, (message, our_nick, config, resolved), line),
        message.0.command == Command::Numeric(Numeric::RPL_WHOISSERVER, params),
    ensures
        line is Some <==> params@.len() >= 4,
        line matches Some(line) ==> line@ == " ∙ "@ + params@[1]@ + " is connected on "@
            + params@[2]@ + " ("@ + params@[3]@ + ")"@,
{
    assert(texts(params@).len() == params@.len());
    assert(forall|i: int| 0 <= i < params@.len() ==> #[trigger] texts(params@)[i] == params@[i]@);
}

/// A user is told by nickname, username and host, and by the real name, which is the sixth
/// parameter.
pub proof fn law_whois_user_reply(
    message: &Encoded,
    our_nick: &Nick,
    config: &Config,
    resolved: &Option<User>,
    line: Option<String>,
    params: Vec<String>,
)
    requires
        call_ensures(text, (message, our_nick, config, resolved), line),
        message.0.command == Command::Numeric(Numeric::RPL_WHOISUSER, params),
    ensures
        line is Some <==> params@.len() >= 6,
        line matches Some(line) ==> line@ == " ∙ "@ + params@[1]@ + " has userhost "@
            + params@[2]@ + "@"@ + params@[3]@ + " and real name '"@ + params@[5]@ + "'"@,
{
    assert(texts(params@).len() == params@.len());
    assert(forall|i: int| 0 <= i < params@.len() ==> #[trigger] texts(params@)[i] == params@[i]@);
}

/// The channels of a user are told as the server lists them.
pub proof fn law_whois_channels_reply(
    message: &Encoded,
    our_nick: &Nick,
    config: &Config,
    resolved: &Option<User>,
    line: Option<String>,
    params: Vec<String>,
)
    requires
        call_ensures(text, (message, our_nick, config, resolved), line),
        message.0.command == Command::Numeric(Numeric::RPL_WHOISCHANNELS, params),
    ensures
        line is Some <==> params@.len() >= 3,
        line matches Some(line) ==> line@ == " ∙ "@ + params@[1]@ + " is in "@ + params@[2]@,
{
    assert(texts(params@).len() == params@.len());
    assert(forall|i: int| 0 <= i < params@.len() ==> #[trigger] texts(params@)[i] == params@[i]@);
}

/// The address and the account of a user are told with the server's own words, the fourth
/// parameter, before them.
pub proof fn law_whois_actually_and_account_replies(
    message: &Encoded,
    our_nick: &Nick,
    config: &Config,
    resolved: &Option<User>,
    line: Option<String>,
    params: Vec<String>,
)
    requires
        call_ensures(text, (message, our_nick, config, resolved), line),
        message.0.command == Command::Numeric(Numeric::RPL_WHOISACTUALLY, params)
            || message.0.command == Command::Numeric(Numeric::RPL_WHOISACCOUNT, params),
    ensures
        line is Some <==> params@.len() >= 4,
        line matches Some(line) ==> line@ == " ∙ "@ + params@[1]@ + " "@ + params@[3]@ + " "@
            + params@[2]@,
{
    assert(texts(params@).len() == params@.len());
    assert(forall|i: int| 0 <= i < params@.len() ==> #[trigger] texts(params@)[i] == params@[i]@);
}

/// A secure connection is told with the server's own words.
pub proof fn law_whois_secure_reply(
    message: &Encoded,
    our_nick: &Nick,
    config: &Config,
    resolved: &Option<User>,
    line: Option<String>,
    params: Vec<String>,
)
    requires
        call_ensures(text, (message, our_nick, config, resolved), line),
        message.0.command == Command::Numeric(Numeric::RPL_WHOISSECURE, params),
    ensures
        line is Some <==> params@.len() >= 3,
        line matches Some(line) ==> line@ == " ∙ "@ + params@[1]@ + " "@ + params@[2]@,
{
    assert(texts(params@).len() == params@.len());
    assert(forall|i: int| 0 <= i < params@.len() ==> #[trigger] texts(params@)[i] == params@[i]@);
}

/// That a user is away is told by name, with the message for it, if there is one, in
/// brackets at the end.
pub proof fn law_away_reply(
    message: &Encoded,
    our_nick: &Nick,
    config: &Config,
    resolved: &Option<User>,
    line: Option<String>,
    params: Vec<String>,
)
    requires
        call_ensures(text, (message, our_nick, config, resolved), line),
        message.0.command == Command::Numeric(Numeric::RPL_AWAY, params),
    ensures
        line is Some <==> params@.len() >= 2,
        line matches Some(line) ==> line@ == " ∙ "@ + params@[1]@ + " is away"@ + (if params@.len()
            >= 3 {
            " ("@ + params@[2]@ + ")"@
        } else {
            seq![]
        }),
{
    assert(texts(params@).len() == params@.len());
    assert(forall|i: int| 0 <= i < params@.len() ==> #[trigger] texts(params@)[i] == params@[i]@);
}

/// How long a user has been idle, the third parameter in seconds, and when the user has
/// signed on, the fourth, are told if both are numbers and the calendar reaches the
/// second one.
pub proof fn law_whois_idle_reply(
    message: &Encoded,
    our_nick: &Nick,
    config: &Config,
    resolved: &Option<User>,
    line: Option<String>,
    params: Vec<String>,
)
    requires
        call_ensures(text, (message, our_nick, config, resolved), line),
        message.0.command == Command::Numeric(Numeric::RPL_WHOISIDLE, params),
    ensures
        line is Some <==> params@.len() >= 4 && decimal(params@[2]@) is Some && (decimal(
            params@[3]@,
        ) matches Some(sign_on) && sign_on <= 8_210_266_876_799),
        line matches Some(line) ==> line@ == " ∙ "@ + params@[1]@ + " signed on at "@ + utc_text(
            decimal(params@[3]@)->0 as i64,
            0,
        ) + " and has been idle for "@ + timeago_text(seq![], decimal(params@[2]@)->0),
{
    assert(texts(params@).len() == params@.len());
    assert(forall|i: int| 0 <= i < params@.len() ==> #[trigger] texts(params@)[i] == params@[i]@);
    reveal_strlit("");
    assert(""@ =~= seq![]);
}

/// Who has set the topic, the third parameter, and when, the fourth, is told if the latter
/// is a number and the calendar reaches it. (With a year of more than four digits, there
/// is no such date.)
pub proof fn law_topic_time_reply(
    message: &Encoded,
    our_nick: &Nick,
    config: &Config,
    resolved: &Option<User>,
    line: Option<String>,
    params: Vec<String>,
)
    requires
        call_ensures(text, (message, our_nick, config, resolved), line),
        message.0.command == Command::Numeric(Numeric::RPL_TOPICWHOTIME, params),
        params@.len() >= 4 ==> (decimal(params@[3]@) matches Some(set_at) ==> set_at
            <= 253_402_300_799 || set_at > 8_210_266_876_799),
    ensures
        line is Some <==> params@.len() >= 4 && (decimal(params@[3]@) matches Some(set_at) && set_at
            <= 8_210_266_876_799),
        line matches Some(line) ==> line@ == " ∙ topic set by "@ + params@[2]@ + " at "@
            + rfc2822_text(decimal(params@[3]@)->0 as i64, 0),
{
    assert(texts(params@).len() == params@.len());
    assert(forall|i: int| 0 <= i < params@.len() ==> #[trigger] texts(params@)[i] == params@[i]@);
}

/// A date that is to be written fits unless its year has more than four digits and the
/// calendar still reaches it; only the reply on who has set the topic holds such a date.
pub proof fn law_fitting_dates(message: &Encoded, fit: bool)
    requires
        call_ensures(Encoded::has_fitting_dates, (message,), fit),
    ensures
        !fit <==> (message.0.command matches Command::Numeric(Numeric::RPL_TOPICWHOTIME, params)
            && params@.len() >= 4 && decimal(params@[3]@) is Some && 253_402_300_800 <= decimal(
            params@[3]@,
        )->0 <= 8_210_266_876_799),
{
}

} // verus!
