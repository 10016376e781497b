//! The commands of the protocol, each with its parameters.
use vstd::prelude::*;

verus! {

/// A command, or the reply of a server by its number.
#[allow(non_camel_case_types)]
#[derive(Debug, Clone)]
pub enum Command {
    /// `[client] subcommand [capabilities] [values]`
    CAP(Option<String>, String, Option<String>, Option<String>),
    AUTHENTICATE(String),
    PASS(String),
    NICK(String),
    USER(String, String),
    PING(String),
    PONG(String, Option<String>),
    OPER(String, String),
    QUIT(Option<String>),
    ERROR(String),
    /// `channel [key]`
    JOIN(String, Option<String>),
    /// `channel [reason]`
    PART(String, Option<String>),
    /// `channel [topic]`
    TOPIC(String, Option<String>),
    NAMES(String),
    LIST(Option<String>, Option<String>),
    INVITE(String, String),
    /// `channel user [comment]`
    KICK(String, String, Option<String>),
    MOTD(Option<String>),
    VERSION(Option<String>),
    ADMIN(Option<String>),
    CONNECT(String, Option<String>, Option<String>),
    LUSERS,
    TIME(Option<String>),
    STATS(String, Option<String>),
    HELP(Option<String>),
    INFO,
    /// `target`, the modes that change, and their arguments, each as text
    MODE(String, Vec<String>, Vec<String>),
    /// `target text`
    PRIVMSG(String, String),
    /// `target text`
    NOTICE(String, String),
    WHO(String, Option<String>, Option<String>),
    WHOIS(Option<String>, String),
    WHOWAS(String, Option<String>),
    KILL(String, String),
    REHASH,
    RESTART,
    SQUIT(String, String),
    AWAY(Option<String>),
    LINKS,
    USERHOST(Vec<String>),
    WALLOPS(String),
    BATCH(String, Vec<String>),
    CNOTICE(String, String, String),
    CPRIVMSG(String, String, String),
    KNOCK(String, Option<String>),
    TAGMSG(String),
    USERIP(String),
    /// A reply, with its parameters
    Numeric(Numeric, Vec<String>),
    /// A command that none of the others is, with its parameters
    Unknown(String, Vec<String>),
}

/// The replies that read in a way of their own.
#[allow(non_camel_case_types)]
#[derive(Debug, Clone, Copy, PartialEq, Eq, Structural)]
pub enum Numeric {
    RPL_AWAY,
    RPL_WHOISUSER,
    RPL_WHOISSERVER,
    RPL_WHOISIDLE,
    RPL_ENDOFWHOIS,
    RPL_WHOISCHANNELS,
    RPL_CHANNELMODEIS,
    RPL_WHOISACCOUNT,
    RPL_TOPIC,
    RPL_TOPICWHOTIME,
    RPL_WHOISACTUALLY,
    RPL_WHOISSECURE,
    /// Any other reply, by its number
    Other(u16),
}

} // verus!
