//! The line of text that stands for a message.
use vstd::prelude::*;

use super::action_line;
use super::parse_action;
use super::routing::resolved_or;
use super::sender;
use super::viewed;
use super::Encoded;
use crate::config::Config;
use crate::ctcp::QueryView;
use crate::proto;
use crate::proto::is_channel;
use crate::proto::names_channel;
use crate::proto::Command;
use crate::proto::Numeric;
use crate::strings::after;
use crate::strings::decimal;
use crate::strings::join;
use crate::strings::joined_after;
use crate::strings::parse_decimal;
use crate::strings::same_text;
use crate::strings::texts;
use crate::time::readable_duration;
use crate::time::rfc2822_text;
use crate::time::timeago_text;
use crate::time::utc_text;
use crate::time::Posix;
use crate::time::LAST_MAIL_SECOND;
use crate::time::LAST_SECOND;
use crate::user::text_of;
use crate::user::Nick;
use crate::user::User;
use crate::user::UserView;

verus! {

/// A remark in brackets behind a line, if there is one to make.
pub open spec fn remark(text: Option<Seq<char>>) -> Seq<char> {
    match text {
        Some(text) => " ("@ + text + ")"@,
        None => seq![],
    }
}

/// Whom a line calls the one who was kicked, with the verb that goes with it.
pub open spec fn kicked(victim: Seq<char>, our_nick: Seq<char>) -> Seq<char> {
    if victim == our_nick {
        "you have"@
    } else {
        victim + " has"@
    }
}

/// The line for what `user` does with `command`, if there is one. That we have
/// joined a channel ourselves needs none.
pub open spec fn event_text(
    command: Command,
    user: UserView,
    our_nick: Seq<char>,
    config: Config,
) -> Option<Seq<char>> {
    let server_messages = config.buffer.server_messages;
    match command {
        Command::TOPIC(_, Some(topic)) => Some(
            " ∙ "@ + user.display_text() + " changed topic to "@ + topic@,
        ),
        Command::PART(_, text) => Some(
            "⟵ "@ + user.formatted_text(server_messages.part.username_format)
                + " has left the channel"@ + remark(text_of(text)),
        ),
        Command::JOIN(_, _) => if user.nickname != our_nick {
            Some(
                "⟶ "@ + user.formatted_text(server_messages.join.username_format)
                    + " has joined the channel"@,
            )
        } else {
            None
        },
        Command::KICK(_, victim, comment) => Some(
            "⟵ "@ + kicked(victim@, our_nick) + " been kicked by "@ + user.display_text() + remark(
                text_of(comment),
            ),
        ),
        Command::MODE(target, modes, args) => if names_channel(target@) {
            Some(
                " ∙ "@ + user.display_text() + " sets mode "@ + join(texts(modes@), " "@) + " "@
                    + join(texts(args@), " "@),
            )
        } else {
            None
        },
        _ => None,
    }
}

/// The line for a reply whose parameters are `params`, the first of which is the
/// client that it goes to. There is none for the end of a list, nor for a reply
/// with too few parameters or with a number in it that is none.
pub open spec fn reply_text(numeric: Numeric, params: Seq<Seq<char>>) -> Option<Seq<char>> {
    match numeric {
        Numeric::RPL_TOPIC => if params.len() > 2 {
            Some(" ∙ topic is "@ + params[2])
        } else {
            None
        },
        Numeric::RPL_ENDOFWHOIS => None,
        Numeric::RPL_WHOISIDLE => if params.len() > 3 {
            match (decimal(params[2]), decimal(params[3])) {
                (Some(idle), Some(sign_on)) => if sign_on <= LAST_SECOND {
                    Some(
                        " ∙ "@ + params[1] + " signed on at "@ + utc_text(sign_on as i64, 0)
                            + " and has been idle for "@ + timeago_text(""@, idle),
                    )
                } else {
                    None
                },
                _ => None,
            }
        } else {
            None
        },
        Numeric::RPL_WHOISSERVER => if params.len() > 3 {
            Some(
                " ∙ "@ + params[1] + " is connected on "@ + params[2] + " ("@ + params[3] + ")"@,
            )
        } else {
            None
        },
        Numeric::RPL_WHOISUSER => if params.len() > 5 {
            Some(
                " ∙ "@ + params[1] + " has userhost "@ + params[2] + "@"@ + params[3]
                    + " and real name '"@ + params[5] + "'"@,
            )
        } else {
            None
        },
        Numeric::RPL_WHOISCHANNELS => if params.len() > 2 {
            Some(" ∙ "@ + params[1] + " is in "@ + params[2])
        } else {
            None
        },
        Numeric::RPL_WHOISACTUALLY => if params.len() > 3 {
            Some(" ∙ "@ + params[1] + " "@ + params[3] + " "@ + params[2])
        } else {
            None
        },
        Numeric::RPL_WHOISSECURE => if params.len() > 2 {
            Some(" ∙ "@ + params[1] + " "@ + params[2])
        } else {
            None
        },
        Numeric::RPL_WHOISACCOUNT => if params.len() > 3 {
            Some(" ∙ "@ + params[1] + " "@ + params[3] + " "@ + params[2])
        } else {
            None
        },
        Numeric::RPL_TOPICWHOTIME => if params.len() > 3 {
            match decimal(params[3]) {
                Some(set_at) => if set_at <= LAST_SECOND {
                    Some(
                        " ∙ topic set by "@ + params[2] + " at "@ + rfc2822_text(set_at as i64, 0),
                    )
                } else {
                    None
                },
                None => None,
            }
        } else {
            None
        },
        Numeric::RPL_CHANNELMODEIS => Some(
            " ∙ Channel mode is "@ + join(after(params, 2), " "@),
        ),
        Numeric::RPL_AWAY => if params.len() > 1 {
            Some(
                " ∙ "@ + params[1] + " is away"@ + remark(
                    if params.len() > 2 {
                        Some(params[2])
                    } else {
                        None
                    },
                ),
            )
        } else {
            None
        },
        Numeric::Other(_) => Some(join(after(params, 1), " "@)),
    }
}

/// The line for `message`, if there is one, for a client that goes by `our_nick`.
/// `resolved` is what is known of the sender's attributes in the channel that
/// the message names.
pub open spec fn text_view(
    message: proto::Message,
    our_nick: Seq<char>,
    config: Config,
    resolved: Option<UserView>,
) -> Option<Seq<char>> {
    match message.command {
        Command::PRIVMSG(_, text) => Some(
            match (sender(message), QueryView::parse(text@)) {
                (Some(user), Some(query)) => action_line(user.nickname, query.params),
                _ => text@,
            },
        ),
        Command::NOTICE(_, text) => Some(text@),
        Command::Numeric(numeric, params) => reply_text(numeric, texts(params@)),
        Command::Unknown(_, params) => Some(join(after(texts(params@), 1), " "@)),
        _ => match sender(message) {
            Some(user) => event_text(
                message.command,
                resolved_or(resolved, user),
                our_nick,
                config,
            ),
            None => None,
        },
    }
}

/// The time in `command` can be written as the date of a mail header, if that
/// is what is to become of it: it does not lie in the part of the calendar where
/// years have more than four digits.
pub open spec fn dates_fit(command: Command) -> bool {
    match command {
        Command::Numeric(Numeric::RPL_TOPICWHOTIME, params) => params@.len() > 3 ==> (decimal(
            params@[3]@,
        ) matches Some(set_at) ==> !(LAST_MAIL_SECOND < set_at <= LAST_SECOND)),
        _ => true,
    }
}

impl Encoded {
    /// Whether the message holds no time that is to be written as the date of a
    /// mail header and cannot be.
    pub fn has_fitting_dates(&self) -> (fit: bool)
        ensures
            fit == dates_fit(self.0.command),
    {
        match &self.0.command {
            Command::Numeric(Numeric::RPL_TOPICWHOTIME, params) => match param(params, 3) {
                Some(set_at) => match parse_decimal(set_at) {
                    Some(set_at) => set_at <= LAST_MAIL_SECOND as u64 || set_at > LAST_SECOND as u64,
                    None => true,
                },
                None => true,
            },
            _ => true,
        }
    }
}

/// The parameter at position `i`, if there is one.
fn param(params: &Vec<String>, i: usize) -> (param: Option<&str>)
    ensures
        param is Some == (i < params.len()),
        param matches Some(param) ==> param@ == params@[i as int]@,
{
    if i < params.len() {
        Some(params[i].as_str())
    } else {
        None
    }
}

/// Puts a remark in brackets behind a line, if there is one to make.
fn append_remark(line: &mut String, text: Option<&str>)
    ensures
        final(line)@ == old(line)@ + remark(viewed(text)),
{
    let ghost before = line@;
    match text {
        Some(text) => {
            line.append(" (");
            line.append(text);
            line.append(")");
            assert(line@ =~= before + remark(Some(text@)));
        },
        None => {
            assert(line@ =~= before + remark(None));
        },
    }
}

/// The line for a reply.
fn text_of_reply(numeric: Numeric, params: &Vec<String>) -> (text: Option<String>)
    requires
        dates_fit(Command::Numeric(numeric, *params)),
    ensures
        viewed(text) == reply_text(numeric, texts(params@)),
{
    match numeric {
        Numeric::RPL_TOPIC => {
            let topic = param(params, 2)?;

            let mut line = " ∙ topic is ".to_owned();
            line.append(topic);
            Some(line)
        },
        Numeric::RPL_ENDOFWHOIS => {
            // We skip the end message of a WHOIS.
            None
        },
        Numeric::RPL_WHOISIDLE => {
            let nick = param(params, 1)?;
            let idle = parse_decimal(param(params, 2)?)?;
            let sign_on = parse_decimal(param(params, 3)?)?;

            let sign_on_datetime = Posix::from_seconds(sign_on).datetime()?.display();
            let idle_readable = readable_duration(idle);

            let mut line = " ∙ ".to_owned();
            line.append(nick);
            line.append(" signed on at ");
            line.append(sign_on_datetime.as_str());
            line.append(" and has been idle for ");
            line.append(idle_readable.as_str());
            Some(line)
        },
        Numeric::RPL_WHOISSERVER => {
            let nick = param(params, 1)?;
            let server = param(params, 2)?;
            let region = param(params, 3)?;

            let mut line = " ∙ ".to_owned();
            line.append(nick);
            line.append(" is connected on ");
            line.append(server);
            line.append(" (");
            line.append(region);
            line.append(")");
            Some(line)
        },
        Numeric::RPL_WHOISUSER => {
            let nick = param(params, 1)?;
            let username = param(params, 2)?;
            let hostname = param(params, 3)?;
            let real_name = param(params, 5)?;

            let mut line = " ∙ ".to_owned();
            line.append(nick);
            line.append(" has userhost ");
            line.append(username);
            line.append("@");
            line.append(hostname);
            line.append(" and real name '");
            line.append(real_name);
            line.append("'");
            Some(line)
        },
        Numeric::RPL_WHOISCHANNELS => {
            let nick = param(params, 1)?;
            let channels = param(params, 2)?;

            let mut line = " ∙ ".to_owned();
            line.append(nick);
            line.append(" is in ");
            line.append(channels);
            Some(line)
        },
        Numeric::RPL_WHOISACTUALLY => {
            let nick = param(params, 1)?;
            let ip = param(params, 2)?;
            let status_text = param(params, 3)?;

            let mut line = " ∙ ".to_owned();
            line.append(nick);
            line.append(" ");
            line.append(status_text);
            line.append(" ");
            line.append(ip);
            Some(line)
        },
        Numeric::RPL_WHOISSECURE => {
            let nick = param(params, 1)?;
            let status_text = param(params, 2)?;

            let mut line = " ∙ ".to_owned();
            line.append(nick);
            line.append(" ");
            line.append(status_text);
            Some(line)
        },
        Numeric::RPL_WHOISACCOUNT => {
            let nick = param(params, 1)?;
            let account = param(params, 2)?;
            let status_text = param(params, 3)?;

            let mut line = " ∙ ".to_owned();
            line.append(nick);
            line.append(" ");
            line.append(status_text);
            line.append(" ");
            line.append(account);
            Some(line)
        },
        Numeric::RPL_TOPICWHOTIME => {
            let nick = param(params, 2)?;
            let set_at = parse_decimal(param(params, 3)?)?;
            let datetime = Posix::from_seconds(set_at).datetime()?.to_rfc2822();

            let mut line = " ∙ topic set by ".to_owned();
            line.append(nick);
            line.append(" at ");
            line.append(datetime.as_str());
            Some(line)
        },
        Numeric::RPL_CHANNELMODEIS => {
            let mode = joined_after(params, 2);

            let mut line = " ∙ Channel mode is ".to_owned();
            line.append(mode.as_str());
            Some(line)
        },
        Numeric::RPL_AWAY => {
            let user = param(params, 1)?;

            let mut line = " ∙ ".to_owned();
            line.append(user);
            line.append(" is away");
            append_remark(&mut line, param(params, 2));
            Some(line)
        },
        Numeric::Other(_) => Some(joined_after(params, 1)),
    }
}

/// The line for `message`, if there is one, for a client that goes by `our_nick`.
/// `resolved` is what is known of the sender's attributes in the channel that
/// the message names.
pub fn text(message: &Encoded, our_nick: &Nick, config: &Config, resolved: &Option<User>) -> (text:
    Option<String>)
    requires
        dates_fit(message.0.command),
    ensures
        viewed(text) == text_view(message.0, our_nick@, *config, viewed(*resolved)),
{
    match &message.0.command {
        Command::PRIVMSG(_, text) => {
            // Check if a synthetic action message
            if let Some(user) = message.user() {
                if let Some(action) = parse_action(user.nickname(), text.as_str()) {
                    return Some(action);
                }
            }
            Some(text.clone())
        },
        Command::NOTICE(_, text) => Some(text.clone()),
        Command::Numeric(numeric, params) => text_of_reply(*numeric, params),
        Command::Unknown(_, params) => Some(joined_after(params, 1)),
        command => {
            let raw_user = message.user()?;
            let user = match resolved {
                Some(user) => user.clone(),
                None => raw_user,
            };
            text_of_event(command, &user, our_nick, config)
        },
    }
}

/// The line for what `user` does with `command`.
fn text_of_event(command: &Command, user: &User, our_nick: &Nick, config: &Config) -> (text: Option<
    String,
>)
    ensures
        viewed(text) == event_text(*command, user@, our_nick@, *config),
{
    match command {
        Command::TOPIC(_, topic) => {
            let topic = topic.as_ref()?;

            let mut line = " ∙ ".to_owned();
            line.append(user.display().as_str());
            line.append(" changed topic to ");
            line.append(topic.as_str());
            Some(line)
        },
        Command::PART(_, text) => {
            let user = user.formatted(config.buffer.server_messages.part.username_format);

            let mut line = "⟵ ".to_owned();
            line.append(user.as_str());
            line.append(" has left the channel");
            append_remark(&mut line, borrowed(text));
            Some(line)
        },
        Command::JOIN(_, _) => {
            if user.nickname() == our_nick.as_nick_ref() {
                return None;
            }
            let user = user.formatted(config.buffer.server_messages.join.username_format);

            let mut line = "⟶ ".to_owned();
            line.append(user.as_str());
            line.append(" has joined the channel");
            Some(line)
        },
        Command::KICK(_, victim, comment) => {
            let target = if same_text(victim.as_str(), our_nick.as_str()) {
                "you have".to_owned()
            } else {
                let mut target = victim.clone();
                target.append(" has");
                target
            };

            let mut line = "⟵ ".to_owned();
            line.append(target.as_str());
            line.append(" been kicked by ");
            line.append(user.display().as_str());
            append_remark(&mut line, borrowed(comment));
            Some(line)
        },
        Command::MODE(target, modes, args) => {
            if !is_channel(target.as_str()) {
                return None;
            }
            assert(after(texts(modes@), 0) =~= texts(modes@));
            assert(after(texts(args@), 0) =~= texts(args@));
            let modes = joined_after(modes, 0);
            let args = joined_after(args, 0);

            let mut line = " ∙ ".to_owned();
            line.append(user.display().as_str());
            line.append(" sets mode ");
            line.append(modes.as_str());
            line.append(" ");
            line.append(args.as_str());
            Some(line)
        },
        _ => None,
    }
}

/// A text that may be missing, lent out.
fn borrowed(text: &Option<String>) -> (lent: Option<&str>)
    ensures
        viewed(lent) == text_of(*text),
{
    match text {
        Some(text) => Some(text.as_str()),
        None => None,
    }
}

} // verus!
