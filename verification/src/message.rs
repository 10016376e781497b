//! Messages as a client keeps them: what a line says, in which buffer it
//! stands, and when it came.
pub mod laws;
pub mod routing;
pub mod source;
pub mod wording;

use vstd::prelude::*;

pub use self::routing::target;
use self::routing::target_view;
pub use self::source::Source;
use self::source::SourceView;
use self::wording::dates_fit;
pub use self::wording::text;
use self::wording::text_view;
use crate::config::Config;
use crate::ctcp;
use crate::ctcp::QueryView;
use crate::proto;
use crate::proto::Command;
use crate::strings::contains_text;
use crate::strings::occurs;
use crate::strings::same_text;
use crate::time::read_clock;
use crate::time::rfc3339_moment;
use crate::time::valid_moment;
use crate::time::DateTime;
use crate::time::Posix;
use crate::user::Nick;
use crate::user::NickRef;
use crate::user::User;
use crate::user::UserView;

verus! {

/// The name of a channel.
pub type Channel = String;

/// A message as it came over the wire.
#[derive(Debug, Clone)]
pub struct Encoded(pub proto::Message);

impl std::ops::Deref for Encoded {
    type Target = proto::Message;

    fn deref(&self) -> (message: &proto::Message)
        ensures
            *message == self.0,
    {
        &self.0
    }
}

impl std::ops::DerefMut for Encoded {
    fn deref_mut(&mut self) -> (message: &mut proto::Message)
        ensures
            *message == old(self).0,
            *final(message) == final(self).0,
    {
        &mut self.0
    }
}

impl From<proto::Message> for Encoded {
    fn from(proto: proto::Message) -> (encoded: Encoded) {
        Encoded(proto)
    }
}

impl vstd::std_specs::convert::FromSpecImpl<proto::Message> for Encoded {
    open spec fn obeys_from_spec() -> bool {
        true
    }

    open spec fn from_spec(proto: proto::Message) -> Encoded {
        Encoded(proto)
    }
}

impl From<Encoded> for proto::Message {
    fn from(encoded: Encoded) -> (proto: proto::Message) {
        encoded.0
    }
}

impl vstd::std_specs::convert::FromSpecImpl<Encoded> for proto::Message {
    open spec fn obeys_from_spec() -> bool {
        true
    }

    open spec fn from_spec(encoded: Encoded) -> proto::Message {
        encoded.0
    }
}

/// The view of a value that may be missing.
pub open spec fn viewed<T: View>(value: Option<T>) -> Option<T::V> {
    match value {
        Some(value) => Some(value@),
        None => None,
    }
}

/// The user that a message comes from, if its source is one.
pub open spec fn sender(message: proto::Message) -> Option<UserView> {
    match message.source {
        Some(proto::Source::User(user)) => Some(UserView::from_proto(user)),
        _ => None,
    }
}

/// The channel where the sender of a command acts, if it names one.
pub open spec fn scene(command: Command) -> Option<Seq<char>> {
    match command {
        Command::TOPIC(channel, _) => Some(channel@),
        Command::PART(channel, _) => Some(channel@),
        Command::JOIN(channel, _) => Some(channel@),
        Command::KICK(channel, _, _) => Some(channel@),
        Command::MODE(target, _, _) => channel_name(target@),
        Command::PRIVMSG(target, _) => channel_name(target@),
        Command::NOTICE(target, _) => channel_name(target@),
        _ => None,
    }
}

/// `target`, if it is the name of a channel.
pub open spec fn channel_name(target: Seq<char>) -> Option<Seq<char>> {
    if proto::names_channel(target) {
        Some(target)
    } else {
        None
    }
}

/// Whose attributes are to be looked up, and in which channel, before a message
/// is shown.
pub open spec fn lookup(message: proto::Message) -> Option<(UserView, Seq<char>)> {
    match (sender(message), scene(message.command)) {
        (Some(user), Some(channel)) => Some((user, channel)),
        _ => None,
    }
}

/// The first tag that has the key `key`.
pub open spec fn first_tag(tags: Seq<proto::Tag>, key: Seq<char>) -> Option<proto::Tag>
    decreases tags.len(),
{
    if tags.len() == 0 {
        None
    } else if tags[0].key@ == key {
        Some(tags[0])
    } else {
        first_tag(tags.drop_first(), key)
    }
}

/// The moment that a message carries in its first tag for the time, if that
/// names one.
pub open spec fn tagged_moment(message: proto::Message) -> Option<(i64, u32)> {
    match first_tag(message.tags@, "time"@) {
        Some(tag) => match tag.value {
            Some(value) => rfc3339_moment(value@),
            None => None,
        },
        None => None,
    }
}

/// `text` is a query that reports what its sender does.
pub open spec fn reports_action(text: Seq<char>) -> bool {
    QueryView::parse(text) matches Some(query) && query.command == "ACTION"@
}

/// The line that reports what a user does.
pub open spec fn action_line(nick: Seq<char>, action: Seq<char>) -> Seq<char> {
    " ∙ "@ + nick + " "@ + action
}

impl Encoded {
    /// The user that the message comes from, if its source is one.
    pub fn user(&self) -> (user: Option<User>)
        ensures
            viewed(user) == sender(self.0),
    {
        match &self.0.source {
            Some(proto::Source::User(user)) => Some(User::from_proto(user.clone())),
            _ => None,
        }
    }

    /// The moment that the message carries in its first tag for the time, if
    /// that names one.
    pub fn tagged_time(&self) -> (moment: Option<DateTime>)
        ensures
            viewed(moment) == tagged_moment(self.0),
            moment matches Some(m) ==> valid_moment(m@.0 as int, m@.1 as int),
    {
        let tags = &self.0.tags;
        let mut i: usize = 0;
        assert(tags@.skip(0) =~= tags@);
        while i < tags.len()
            invariant
                tags == self.0.tags,
                i <= tags.len(),
                first_tag(tags@, "time"@) == first_tag(tags@.skip(i as int), "time"@),
            decreases tags.len() - i,
        {
            if same_text(tags[i].key.as_str(), "time") {
                return match &tags[i].value {
                    Some(value) => DateTime::parse_from_rfc3339(value.as_str()),
                    None => None,
                };
            }
            assert(tags@.skip(i as int).drop_first() =~= tags@.skip(i + 1));
            i += 1;
        }
        None
    }
}

/// When the server saw a message: the moment that the message carries in its
/// first tag for the time, or else the present one.
pub fn server_time(message: &Encoded) -> (moment: DateTime)
    ensures
        tagged_moment(message.0) matches Some(tagged) ==> moment@ == tagged,
        tagged_moment(message.0) is None ==> call_ensures(DateTime::now, (), moment),
        valid_moment(moment@.0 as int, moment@.1 as int),
{
    message.tagged_time().unwrap_or_else(DateTime::now)
}

/// When the server saw a message, for a client whose clock reads `now`.
pub fn server_time_at(message: &Encoded, now: DateTime) -> (moment: DateTime)
    ensures
        moment@ == (match tagged_moment(message.0) {
            Some(tagged) => tagged,
            None => now@,
        }),
{
    message.tagged_time().unwrap_or(now)
}

/// Whether `text` is a query that reports what its sender does.
pub fn is_action(text: &str) -> (action: bool)
    ensures
        action == reports_action(text@),
{
    match ctcp::parse_query(text) {
        Some(query) => same_text(query.command, "ACTION"),
        None => false,
    }
}

/// The line for a text from `nick` that is a query, whatever it asks for.
pub fn parse_action(nick: NickRef, text: &str) -> (line: Option<String>)
    ensures
        viewed(line) == (match QueryView::parse(text@) {
            Some(query) => Some(action_line(nick@, query.params)),
            None => None,
        }),
{
    let query = ctcp::parse_query(text)?;
    Some(action_text(nick, query.params))
}

/// The line that reports what a user does.
pub fn action_text(nick: NickRef, action: &str) -> (line: String)
    ensures
        line@ == action_line(nick@, action@),
{
    let mut line = " ∙ ".to_owned();
    line.append(nick.as_str());
    line.append(" ");
    line.append(action);
    line
}

/// Whether `text` from someone else speaks of the user who goes by `own_nick`.
pub fn reference_user(sender: NickRef, own_nick: NickRef, text: &str) -> (referenced: bool)
    ensures
        referenced == (sender@ != own_nick@ && occurs(own_nick@, text@)),
{
    sender != own_nick && contains_text(text, own_nick.as_str())
}

/// The buffer that a line stands in, and where the line comes from.
#[derive(Debug, Clone, PartialEq, Eq)]
pub enum Target {
    Server { source: Source },
    Channel { channel: Channel, source: Source },
    Query { nick: Nick, source: Source },
}

/// A target, by the characters of its names.
pub enum TargetView {
    Server { source: SourceView },
    Channel { channel: Seq<char>, source: SourceView },
    Query { nick: Seq<char>, source: SourceView },
}

impl View for Target {
    type V = TargetView;

    open spec fn view(&self) -> TargetView {
        match *self {
            Target::Server { source } => TargetView::Server { source: source@ },
            Target::Channel { channel, source } => TargetView::Channel {
                channel: channel@,
                source: source@,
            },
            Target::Query { nick, source } => TargetView::Query { nick: nick@, source: source@ },
        }
    }
}

impl TargetView {
    pub open spec fn source(self) -> SourceView {
        match self {
            TargetView::Server { source } => source,
            TargetView::Channel { source, .. } => source,
            TargetView::Query { source, .. } => source,
        }
    }
}

impl Target {
    /// Where the line comes from.
    pub fn source(&self) -> (source: &Source)
        ensures
            source@ == self@.source(),
            match *self {
                Target::Server { source: own } => *source == own,
                Target::Channel { source: own, .. } => *source == own,
                Target::Query { source: own, .. } => *source == own,
            },
    {
        match self {
            Target::Server { source } => source,
            Target::Channel { source, .. } => source,
            Target::Query { source, .. } => source,
        }
    }
}

/// Whether a line goes out or comes in.
#[derive(Debug, Clone, Copy, PartialEq, Eq, Structural)]
pub enum Direction {
    Sent,
    Received,
}

/// A line in a buffer.
#[derive(Debug, Clone)]
pub struct Message {
    pub received_at: Posix,
    pub server_time: DateTime,
    pub direction: Direction,
    pub target: Target,
    pub text: String,
}

/// `line` is what becomes of `message` for a client that goes by `our_nick`,
/// where `resolved` is what is known of the sender's attributes: nothing, where
/// there is no text for the message or no buffer that it belongs in, and else a
/// line with that text in that buffer. The line came in at the present time, and
/// was sent at the moment that the message carries, or else at the present one.
pub open spec fn shows(
    line: Option<Message>,
    message: proto::Message,
    our_nick: Seq<char>,
    config: Config,
    resolved: Option<UserView>,
) -> bool {
    match (
        text_view(message, our_nick, config, resolved),
        target_view(message, our_nick, resolved),
    ) {
        (Some(text), Some(target)) => {
            &&& line matches Some(line)
            &&& line.direction is Received
            &&& line.text@ == text
            &&& line.target@ == target
            &&& call_ensures(Posix::now, (), line.received_at)
            &&& tagged_moment(message) matches Some(tagged) ==> line.server_time@ == tagged
            &&& tagged_moment(message) is None ==> call_ensures(
                DateTime::now,
                (),
                line.server_time,
            )
            &&& valid_moment(line.server_time@.0 as int, line.server_time@.1 as int)
        },
        _ => line is None,
    }
}

impl Message {
    /// Someone else has said or done it.
    pub open spec fn is_news(self) -> bool {
        self.direction is Received && self.target@.source().is_personal()
    }

    /// A line that someone else has said or done is one to be told of.
    pub fn triggers_unread(&self) -> (triggers: bool)
        ensures
            triggers == self.is_news(),
    {
        matches!(self.direction, Direction::Received) && matches!(
            self.target.source(),
            Source::User(_) | Source::Action
        )
    }

    /// The line for a message that has come in, if it is to be shown. The
    /// attributes of the sender are looked up with `resolve_attributes` where the
    /// message names a channel. When the line came in is the present time; so is
    /// the server's time for it where the message carries none. A message with a
    /// date that cannot be written is left to the caller, who can tell it by
    /// `Encoded::has_fitting_dates`.
    pub fn received(
        encoded: Encoded,
        our_nick: Nick,
        config: &Config,
        resolve_attributes: impl Fn(&User, &str) -> Option<User>,
    ) -> (line: Option<Message>)
        requires
            dates_fit(encoded.0.command),
            forall|user: &User, channel: &str|
                lookup(encoded.0) == Some((user@, channel@)) ==> #[trigger] call_requires(
                    resolve_attributes,
                    (user, channel),
                ),
        ensures
            match lookup(encoded.0) {
                Some((user, channel)) => exists|u: User, c: &str, resolved: Option<User>|
                    {
                        &&& #[trigger] call_ensures(resolve_attributes, (&u, c), resolved)
                        &&& u@ == user
                        &&& c@ == channel
                        &&& shows(line, encoded.0, our_nick@, *config, viewed(resolved))
                    },
                None => shows(line, encoded.0, our_nick@, *config, None),
            },
    {
        let server_time = server_time(&encoded);
        let resolved = encoded.resolve(resolve_attributes);
        let (text, target) = Message::placed_text(encoded, our_nick, config, resolved)?;

        Some(
            Message {
                received_at: read_clock(Posix::now),
                server_time,
                direction: Direction::Received,
                target,
                text,
            },
        )
    }

    /// The text for a message that has come in, and the buffer that it belongs in,
    /// if the message has both.
    fn placed_text(encoded: Encoded, our_nick: Nick, config: &Config, resolved: Option<User>) -> (
        placed: Option<(String, Target)>)
        requires
            dates_fit(encoded.0.command),
        ensures
            match (
                text_view(encoded.0, our_nick@, *config, viewed(resolved)),
                target_view(encoded.0, our_nick@, viewed(resolved)),
            ) {
                (Some(text), Some(target)) => {
                    &&& placed matches Some(placed)
                    &&& placed.0@ == text
                    &&& placed.1@ == target
                },
                _ => placed is None,
            },
    {
        let text = text(&encoded, &our_nick, config, &resolved)?;
        let target = target(encoded, &our_nick, resolved)?;
        Some((text, target))
    }

    /// The line for a message that has come in at a given time, if it is to be
    /// shown, with the answer of the lookup for its sender.
    pub fn assemble(
        encoded: Encoded,
        our_nick: Nick,
        config: &Config,
        resolved: Option<User>,
        server_time: DateTime,
        received_at: Posix,
    ) -> (line: Option<Message>)
        requires
            dates_fit(encoded.0.command),
        ensures
            match (
                text_view(encoded.0, our_nick@, *config, viewed(resolved)),
                target_view(encoded.0, our_nick@, viewed(resolved)),
            ) {
                (Some(text), Some(target)) => {
                    &&& line matches Some(line)
                    &&& line.received_at == received_at
                    &&& line.server_time == server_time
                    &&& line.direction is Received
                    &&& line.target@ == target
                    &&& line.text@ == text
                },
                _ => line is None,
            },
    {
        let (text, target) = Message::placed_text(encoded, our_nick, config, resolved)?;

        Some(Message { received_at, server_time, direction: Direction::Received, target, text })
    }

    /// The line for a file that `from` wants to send us.
    pub fn file_transfer_request_received(from: &Nick, filename: &str) -> (line: Message)
        ensures
            line.direction is Received,
            line.target@ == (TargetView::Query { nick: from@, source: SourceView::Action }),
            line.text@ == " ∙ "@ + from@ + " wants to send you \""@ + filename@ + "\""@,
            call_ensures(Posix::now, (), line.received_at),
            call_ensures(DateTime::now, (), line.server_time),
    {
        let mut text = " ∙ ".to_owned();
        text.append(from.as_str());
        text.append(" wants to send you \"");
        text.append(filename);
        text.append("\"");
        Message {
            received_at: read_clock(Posix::now),
            server_time: read_clock(DateTime::now),
            direction: Direction::Received,
            target: Target::Query { nick: from.clone(), source: Source::Action },
            text,
        }
    }

    /// The line for a file that we offer to send to `to`.
    pub fn file_transfer_request_sent(to: &Nick, filename: &str) -> (line: Message)
        ensures
            line.direction is Sent,
            line.target@ == (TargetView::Query { nick: to@, source: SourceView::Action }),
            line.text@ == " ∙ offering to send "@ + to@ + " \""@ + filename@ + "\""@,
            call_ensures(Posix::now, (), line.received_at),
            call_ensures(DateTime::now, (), line.server_time),
    {
        let mut text = " ∙ offering to send ".to_owned();
        text.append(to.as_str());
        text.append(" \"");
        text.append(filename);
        text.append("\"");
        Message {
            received_at: read_clock(Posix::now),
            server_time: read_clock(DateTime::now),
            direction: Direction::Sent,
            target: Target::Query { nick: to.clone(), source: Source::Action },
            text,
        }
    }

    /// The same line in another buffer.
    pub fn with_target(self, target: Target) -> (line: Message)
        ensures
            line == (Message { target, ..self }),
    {
        Message { target, ..self }
    }
}

impl Encoded {
    /// The answer of the lookup for the sender of the message, where the message
    /// names a channel; nothing, without a lookup, where it does not. There is one
    /// lookup at most, and none but for that sender in that channel.
    pub fn resolve(&self, resolve_attributes: impl FnOnce(&User, &str) -> Option<User>) -> (resolved:
        Option<User>)
        requires
            forall|user: &User, channel: &str|
                lookup(self.0) == Some((user@, channel@)) ==> #[trigger] call_requires(
                    resolve_attributes,
                    (user, channel),
                ),
        ensures
            match lookup(self.0) {
                Some((user, channel)) => exists|u: User, c: &str|
                    {
                        &&& #[trigger] call_ensures(resolve_attributes, (&u, c), resolved)
                        &&& u@ == user
                        &&& c@ == channel
                    },
                None => resolved is None,
            },
    {
        let user = self.user()?;
        let channel = self.scene()?;
        resolve_attributes(&user, channel)
    }

    /// The channel where the sender of the message acts, if it names one.
    pub fn scene(&self) -> (channel: Option<&str>)
        ensures
            viewed(channel) == scene(self.0.command),
    {
        match &self.0.command {
            Command::TOPIC(channel, _)
            | Command::PART(channel, _)
            | Command::JOIN(channel, _)
            | Command::KICK(channel, _, _) => Some(channel.as_str()),
            Command::MODE(target, _, _)
            | Command::PRIVMSG(target, _)
            | Command::NOTICE(target, _) => if proto::is_channel(target.as_str()) {
                Some(target.as_str())
            } else {
                None
            },
            _ => None,
        }
    }
}

/// How many lines of a buffer to show, and from which end.
#[derive(Debug, Clone, Copy)]
pub enum Limit {
    Top(usize),
    Bottom(usize),
    Since(Posix),
}

impl Limit {
    pub const DEFAULT_STEP: usize = 50;

    const DEFAULT_COUNT: usize = 500;

    pub fn top() -> (limit: Limit)
        ensures
            limit == Limit::Top(500),
    {
        Limit::Top(Self::DEFAULT_COUNT)
    }

    pub fn bottom() -> (limit: Limit)
        ensures
            limit == Limit::Bottom(500),
    {
        Limit::Bottom(Self::DEFAULT_COUNT)
    }
}

} // verus!
