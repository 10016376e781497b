//! From a message to a line in a buffer.
use vstd::prelude::*;

use super::ctcp::law_query_begins_with_delimiter;
use super::ctcp::law_query_is_what_its_text_says;
use super::strings::law_occurs_is_between;
use crate::config::Config;
use crate::ctcp::QueryView;
use crate::message::action_text;
use crate::message::first_tag;
use crate::message::is_action;
use crate::message::laws::lemma_first_tag;
use crate::message::lookup;
use crate::message::parse_action;
use crate::message::reference_user;
use crate::message::reports_action;
use crate::message::sender;
use crate::message::server_time;
use crate::message::server_time_at;
use crate::message::shows;
use crate::message::tagged_moment;
use crate::message::target;
use crate::message::text;
use crate::message::viewed;
use crate::message::Direction;
use crate::message::Encoded;
use crate::message::Limit;
use crate::message::Message;
use crate::message::Source;
use crate::message::Target;
use crate::proto;
use crate::proto::names_channel;
use crate::proto::Command;
use crate::time::rfc3339_moment;
use crate::time::DateTime;
use crate::time::Posix;
use crate::user::is_plain;
use crate::user::law_plain_name_names_itself;
use crate::user::lemma_find_skips;
use crate::user::Nick;
use crate::user::NickRef;
use crate::user::User;
use crate::user::UserView;

verus! {

/// A message comes from a user exactly if its source is one, and from that one.
pub proof fn law_user_of_a_message(message: &Encoded, user: Option<User>)
    requires
        call_ensures(Encoded::user, (message,), user),
    ensures
        match message.0.source {
            Some(proto::Source::User(raw)) => {
                &&& user matches Some(user)
                &&& user@ == UserView::from_proto(raw)
                &&& sender(message.0) == Some(user@)
            },
            _ => user is None && sender(message.0) is None,
        },
{
}

/// The first tag with the key `time` tells when the server saw a message, if its value
/// can be read, whatever stands in the tags before and behind it: that very moment.
pub proof fn law_time_tag_is_the_moment(
    message: &Encoded,
    before: Seq<proto::Tag>,
    tag: proto::Tag,
    behind: Seq<proto::Tag>,
    tagged: Option<DateTime>,
)
    requires
        call_ensures(Encoded::tagged_time, (message,), tagged),
        message.0.tags@ == before + seq![tag] + behind,
        tag.key@ == "time"@,
        forall|i: int| 0 <= i < before.len() ==> (#[trigger] before[i]).key@ != "time"@,
    ensures
        tagged_moment(message.0) == (match tag.value {
            Some(value) => rfc3339_moment(value@),
            None => None,
        }),
        match tag.value {
            Some(value) => match rfc3339_moment(value@) {
                Some(moment) => tagged matches Some(tagged) && tagged@ == moment,
                None => tagged is None,
            },
            None => tagged is None,
        },
{
    lemma_first_tag(before, tag, behind);
}

/// Without a tag that has the key `time`, a message does not tell when it was seen.
pub proof fn law_no_moment_without_time_tag(message: &Encoded, tagged: Option<DateTime>)
    requires
        call_ensures(Encoded::tagged_time, (message,), tagged),
        forall|i: int|
            0 <= i < message.0.tags@.len() ==> (#[trigger] message.0.tags@[i]).key@ != "time"@,
    ensures
        tagged is None,
        tagged_moment(message.0) is None,
{
    lemma_no_tag(message.0.tags@, "time"@);
}

proof fn lemma_no_tag(tags: Seq<proto::Tag>, key: Seq<char>)
    requires
        forall|i: int| 0 <= i < tags.len() ==> (#[trigger] tags[i]).key@ != key,
    ensures
        first_tag(tags, key) is None,
    decreases tags.len(),
{
    if tags.len() > 0 {
        let rest = tags.drop_first();
        assert forall|i: int| 0 <= i < rest.len() implies (#[trigger] rest[i]).key@ != key by {
            assert(rest[i] == tags[i + 1]);
        }
        lemma_no_tag(rest, key);
        assert(tags[0].key@ != key);
    }
}

/// The server's time for a message is the moment in its first `time` tag, if that can be
/// read, and else the present one.
pub proof fn law_server_time_is_the_tag_or_the_clock(
    message: &Encoded,
    before: Seq<proto::Tag>,
    tag: proto::Tag,
    behind: Seq<proto::Tag>,
    now: DateTime,
    at_now: DateTime,
    moment: DateTime,
)
    requires
        call_ensures(server_time_at, (message, now), at_now),
        call_ensures(server_time, (message,), moment),
        message.0.tags@ == before + seq![tag] + behind,
        tag.key@ == "time"@,
        forall|i: int| 0 <= i < before.len() ==> (#[trigger] before[i]).key@ != "time"@,
    ensures
        match tag.value {
            Some(value) => match rfc3339_moment(value@) {
                Some(tagged) => at_now@ == tagged && moment@ == tagged,
                None => at_now@ == now@ && call_ensures(DateTime::now, (), moment),
            },
            None => at_now@ == now@ && call_ensures(DateTime::now, (), moment),
        },
{
    lemma_first_tag(before, tag, behind);
}

/// Without a `time` tag the server's time is the present one.
pub proof fn law_server_time_without_tag_is_the_clock(
    message: &Encoded,
    now: DateTime,
    at_now: DateTime,
    moment: DateTime,
)
    requires
        call_ensures(server_time_at, (message, now), at_now),
        call_ensures(server_time, (message,), moment),
        forall|i: int|
            0 <= i < message.0.tags@.len() ==> (#[trigger] message.0.tags@[i]).key@ != "time"@,
    ensures
        at_now@ == now@,
        call_ensures(DateTime::now, (), moment),
{
    lemma_no_tag(message.0.tags@, "time"@);
}

/// A text reports an action exactly if it is the word for it behind the delimiter, with
/// nothing or the delimiter behind that, or a space and anything.
pub proof fn law_action_begins_with_its_word(text: &str, action: bool)
    requires
        call_ensures(is_action, (text,), action),
    ensures
        action == reports_action(text@),
        action <==> {
            let word = seq!['\u{1}', 'A', 'C', 'T', 'I', 'O', 'N'];
            ||| text@ == word
            ||| text@ == word + seq!['\u{1}']
            ||| text@.len() > word.len() && text@.take(8) == word + seq![' ']
        },
{
    let s = text@;
    let word = seq!['\u{1}', 'A', 'C', 'T', 'I', 'O', 'N'];
    reveal_strlit("ACTION");
    assert(word =~= seq!['\u{1}'] + "ACTION"@);
    law_query_begins_with_delimiter(s);
    law_query_is_what_its_text_says(s);
    if reports_action(s) {
        let query = QueryView::parse(s)->0;
        let stem = word + seq![' '] + query.params;
        if s == stem + seq!['\u{1}'] || s == stem {
            assert(s.take(8) =~= word + seq![' ']);
        }
    }
    if s == word || s == word + seq!['\u{1}'] {
        let inner = "ACTION"@;
        let open_ended = if s.last() == '\u{1}' {
            s.drop_last()
        } else {
            s
        };
        assert(open_ended =~= word);
        assert(open_ended.skip(1) =~= inner);
        lemma_find_skips(inner, ' ', seq![]);
        assert(inner.take(6) =~= inner);
    }
    if s.len() > 7 && s.take(8) == word + seq![' '] {
        assert forall|i: int| 0 <= i < 8 implies #[trigger] s[i] == (word + seq![' '])[i] by {
            assert(s.take(8)[i] == s[i]);
        }
        let open_ended = if s.last() == '\u{1}' {
            s.drop_last()
        } else {
            s
        };
        assert(s[7] == ' ');
        let inner = open_ended.skip(1);
        assert(inner =~= "ACTION"@ + seq![' '] + inner.skip(7));
        lemma_find_skips("ACTION"@, ' ', inner.skip(7));
        assert(inner.take(6) =~= "ACTION"@);
    }
}

/// The line for an action begins with a bullet and the nickname, and goes on with the
/// action as it is written.
pub proof fn law_action_line(nick: NickRef, action: &str, line: String)
    requires
        call_ensures(action_text, (nick, action), line),
    ensures
        line@ == seq![' ', '∙', ' '] + nick.name@ + seq![' '] + action@,
{
    reveal_strlit(" ∙ ");
    reveal_strlit(" ");
    assert(" ∙ "@ =~= seq![' ', '∙', ' ']);
    assert(" "@ =~= seq![' ']);
}

/// A query of any kind has the line for its parameters; a text that is none has none.
pub proof fn law_query_has_the_line_of_its_parameters(
    nick: NickRef,
    said: &str,
    line: Option<String>,
    params: &str,
    same_line: String,
)
    requires
        call_ensures(parse_action, (nick, said), line),
        QueryView::parse(said@) matches Some(query) ==> params@ == query.params && call_ensures(
            action_text,
            (nick, params),
            same_line,
        ),
    ensures
        line is Some <==> QueryView::parse(said@) is Some,
        line matches Some(line) ==> line@ == same_line@,
{
}

/// A text refers to us exactly if someone else has sent it and our nickname stands
/// somewhere in it.
pub proof fn law_reference_holds_our_name(
    sender: NickRef,
    own_nick: NickRef,
    said: &str,
    referenced: bool,
)
    requires
        call_ensures(reference_user, (sender, own_nick, said), referenced),
    ensures
        referenced <==> sender.name@ != own_nick.name@ && exists|
            before: Seq<char>,
            behind: Seq<char>,
        |
            said@ == #[trigger] (before + own_nick.name@ + behind),
{
    law_occurs_is_between(own_nick.name@, said@);
}

/// A target's source is the one it holds.
pub proof fn law_source_of_a_target(it: &Target, source: &Source)
    requires
        call_ensures(Target::source, (it,), source),
    ensures
        match *it {
            Target::Server { source: own }
            | Target::Channel { source: own, .. }
            | Target::Query { source: own, .. } => *source == own,
        },
        it@.source() == source@,
{
}

/// A line is one to be told of exactly if it has come in and a user has said or done it,
/// whatever buffer it stands in.
pub proof fn law_unread_is_what_users_send(line: &Message, source: &Source, triggers: bool)
    requires
        call_ensures(Message::triggers_unread, (line,), triggers),
        call_ensures(Target::source, (&line.target,), source),
    ensures
        triggers == line.is_news(),
        triggers <==> line.direction == Direction::Received && (source is User || source
            is Action),
{
}

/// There is a line exactly where there is a text for the message and a buffer that it
/// belongs in, and it is that text in that buffer, with the times that are given.
pub proof fn law_assembled_line_is_text_in_target(
    encoded: Encoded,
    our_nick: Nick,
    config: &Config,
    resolved: Option<User>,
    server_time: DateTime,
    received_at: Posix,
    line: Option<Message>,
    words: Option<String>,
    place: Option<Target>,
)
    requires
        call_ensures(Encoded::has_fitting_dates, (&encoded,), true),
        call_ensures(
            Message::assemble,
            (encoded, our_nick, config, resolved, server_time, received_at),
            line,
        ),
        call_ensures(text, (&encoded, &our_nick, config, &resolved), words),
        call_ensures(target, (encoded, &our_nick, resolved), place),
    ensures
        line is Some <==> words is Some && place is Some,
        line matches Some(line) ==> {
            &&& line.text@ == (words->0)@
            &&& line.target@ == (place->0)@
            &&& line.direction == Direction::Received
            &&& line.server_time == server_time
            &&& line.received_at == received_at
        },
{
}

/// What is received becomes a line exactly where there is a text for it and a buffer
/// that it belongs in, for the answer that the lookup has given on the sender: that
/// text in that buffer. Where a message is not about a user in a channel, that answer
/// is none.
pub proof fn law_received_line_is_text_in_target<F: Fn(&User, &str) -> Option<User>>(
    encoded: Encoded,
    our_nick: Nick,
    config: &Config,
    resolve_attributes: F,
    line: Option<Message>,
)
    requires
        call_ensures(Encoded::has_fitting_dates, (&encoded,), true),
        forall|user: &User, channel: &str|
            #[trigger] call_requires(resolve_attributes, (user, channel)),
        call_ensures(Message::received, (encoded, our_nick, config, resolve_attributes), line),
    ensures
        exists|resolved: Option<User>|
            #![trigger is_answer(resolve_attributes, encoded.0, resolved)]
            {
                &&& is_answer(resolve_attributes, encoded.0, resolved)
                &&& forall|words: Option<String>, place: Option<Target>|
                    call_ensures(text, (&encoded, &our_nick, config, &resolved), words)
                        && call_ensures(target, (encoded, &our_nick, resolved), place)
                        ==> #[trigger] is_made_of(line, words, place)
            },
{
    let resolved: Option<User> = match lookup(encoded.0) {
        Some((user, channel)) => {
            let (u, c, resolved) = choose|u: User, c: &str, resolved: Option<User>|
                {
                    &&& #[trigger] call_ensures(resolve_attributes, (&u, c), resolved)
                    &&& u@ == user
                    &&& c@ == channel
                    &&& shows(line, encoded.0, our_nick@, *config, viewed(resolved))
                };
            resolved
        },
        None => None,
    };
    assert(is_answer(resolve_attributes, encoded.0, resolved));
}

/// What a lookup has answered for a message: on its sender, in the channel that it is
/// about, or nothing where there is none to be made.
pub open spec fn is_answer<F: Fn(&User, &str) -> Option<User>>(
    resolve_attributes: F,
    message: proto::Message,
    resolved: Option<User>,
) -> bool {
    match lookup(message) {
        Some((user, channel)) => exists|u: User, c: &str|
            {
                &&& #[trigger] call_ensures(resolve_attributes, (&u, c), resolved)
                &&& u@ == user
                &&& c@ == channel
            },
        None => resolved is None,
    }
}

/// There is a line if there are both words and a place for it, and it has them.
pub open spec fn is_made_of(line: Option<Message>, words: Option<String>, place: Option<Target>) -> bool {
    match (words, place) {
        (Some(words), Some(place)) => {
            &&& line matches Some(line)
            &&& line.text@ == words@
            &&& line.target@ == place@
            &&& line.direction == Direction::Received
        },
        _ => line is None,
    }
}

/// A received line carries the moment in the first `time` tag of the message, if that can
/// be read, and else the present one; and it came in at the present time.
pub proof fn law_received_line_has_the_times<F: Fn(&User, &str) -> Option<User>>(
    encoded: Encoded,
    our_nick: Nick,
    config: &Config,
    resolve_attributes: F,
    line: Message,
    tagged: Option<DateTime>,
)
    requires
        call_ensures(Encoded::has_fitting_dates, (&encoded,), true),
        forall|user: &User, channel: &str|
            #[trigger] call_requires(resolve_attributes, (user, channel)),
        call_ensures(
            Message::received,
            (encoded, our_nick, config, resolve_attributes),
            Some(line),
        ),
        call_ensures(Encoded::tagged_time, (&encoded,), tagged),
    ensures
        call_ensures(Posix::now, (), line.received_at),
        match tagged {
            Some(tagged) => line.server_time@ == tagged@,
            None => call_ensures(DateTime::now, (), line.server_time),
        },
{
}

/// A message between users always becomes a line, and one that is no query is written as
/// it was sent: in the sender's buffer, or, if we have sent it from another client, in
/// the buffer of the plain nickname that it went to.
pub proof fn law_received_message_between_users<F: Fn(&User, &str) -> Option<User>>(
    encoded: Encoded,
    our_nick: Nick,
    config: &Config,
    resolve_attributes: F,
    line: Option<Message>,
    user: proto::User,
    name: String,
    said: String,
)
    requires
        forall|user: &User, channel: &str|
            #[trigger] call_requires(resolve_attributes, (user, channel)),
        call_ensures(Message::received, (encoded, our_nick, config, resolve_attributes), line),
        encoded.0.source == Some(proto::Source::User(user)),
        encoded.0.command == Command::PRIVMSG(name, said),
        !names_channel(name@),
        is_plain(name@) || user.nickname@ != our_nick.name@,
    ensures
        line matches Some(line) && line.direction == Direction::Received && (line.target matches
            Target::Query { nick, .. } && nick.name@ == (if user.nickname@ == our_nick.name@ {
            name@
        } else {
            user.nickname@
        })) && (!(said@.len() > 0 && said@[0] == '\u{1}') ==> line.text@ == said@ && (
        line.target matches Target::Query { source: Source::User(from), .. }
            && from.nickname.name@ == user.nickname@)),
{
    if is_plain(name@) {
        law_plain_name_names_itself(name@);
    }
    law_query_begins_with_delimiter(said@);
    if let Some(line) = line {
        assert(line.target@ is Query);
    }
}

/// A text that a user sends to a channel always becomes a line there; one that is no query
/// is written as it was sent.
pub proof fn law_received_text_in_a_channel<F: Fn(&User, &str) -> Option<User>>(
    encoded: Encoded,
    our_nick: Nick,
    config: &Config,
    resolve_attributes: F,
    line: Option<Message>,
    user: proto::User,
    name: String,
    said: String,
)
    requires
        forall|user: &User, channel: &str|
            #[trigger] call_requires(resolve_attributes, (user, channel)),
        call_ensures(Message::received, (encoded, our_nick, config, resolve_attributes), line),
        encoded.0.source == Some(proto::Source::User(user)),
        encoded.0.command == Command::PRIVMSG(name, said) || encoded.0.command == Command::NOTICE(
            name,
            said,
        ),
        names_channel(name@),
    ensures
        line matches Some(line) && line.direction == Direction::Received && (line.target matches
            Target::Channel { channel, .. } && channel@ == name@) && (!(said@.len() > 0 && said@[0]
            == '\u{1}') ==> line.text@ == said@),
{
    law_query_begins_with_delimiter(said@);
    if let Some(line) = line {
        assert(line.target@ is Channel);
    }
}

/// A lookup is made of the sender, for the channel that the message is about, and its
/// answer is what comes back; without such a channel nothing does.
pub proof fn law_resolve_gives_the_answer<F: Fn(&User, &str) -> Option<User>>(
    encoded: &Encoded,
    resolve_attributes: F,
    resolved: Option<User>,
)
    requires
        forall|user: &User, channel: &str|
            #[trigger] call_requires(resolve_attributes, (user, channel)),
        call_ensures(Encoded::resolve, (encoded, resolve_attributes), resolved),
    ensures
        is_answer(resolve_attributes, encoded.0, resolved),
{
}

/// The channel that a message is about is the one that its command names.
pub proof fn law_scene_is_the_channel_named(message: &Encoded, channel: Option<&str>)
    requires
        call_ensures(Encoded::scene, (message,), channel),
    ensures
        match message.0.command {
            Command::TOPIC(name, _)
            | Command::PART(name, _)
            | Command::JOIN(name, _)
            | Command::KICK(name, _, _) => channel matches Some(channel) && channel@ == name@,
            Command::MODE(name, _, _) | Command::PRIVMSG(name, _) | Command::NOTICE(name, _) => {
                &&& channel is Some <==> names_channel(name@)
                &&& channel matches Some(channel) ==> channel@ == name@
            },
            _ => channel is None,
        },
{
}

/// That a file is offered stands as an action in the buffer of the other user; who offers
/// it is told by the words and by the direction. The times are the present one.
pub proof fn law_file_transfer_lines(
    other: &Nick,
    filename: &str,
    received: Message,
    sent: Message,
)
    requires
        call_ensures(Message::file_transfer_request_received, (other, filename), received),
        call_ensures(Message::file_transfer_request_sent, (other, filename), sent),
    ensures
        received.direction == Direction::Received,
        sent.direction == Direction::Sent,
        received.target matches Target::Query { nick, source } && nick.name@ == other.name@
            && source == Source::Action,
        sent.target matches Target::Query { nick, source } && nick.name@ == other.name@ && source
            == Source::Action,
        received.text@ == " ∙ "@ + other.name@ + " wants to send you "@ + seq!['"'] + filename@
            + seq!['"'],
        sent.text@ == " ∙ offering to send "@ + other.name@ + " "@ + seq!['"'] + filename@
            + seq!['"'],
        call_ensures(Posix::now, (), received.received_at),
        call_ensures(DateTime::now, (), received.server_time),
        call_ensures(Posix::now, (), sent.received_at),
        call_ensures(DateTime::now, (), sent.server_time),
{
    reveal_strlit("\"");
    reveal_strlit(" \"");
    reveal_strlit(" ");
    reveal_strlit(" wants to send you \"");
    reveal_strlit(" wants to send you ");
    assert(" wants to send you \""@ =~= " wants to send you "@ + seq!['"']);
    assert(" \""@ =~= " "@ + seq!['"']);
    assert("\""@ =~= seq!['"']);
    assert(received.text@ =~= " ∙ "@ + other.name@ + " wants to send you "@ + seq!['"'] + filename@
        + seq!['"']);
    assert(sent.text@ =~= " ∙ offering to send "@ + other.name@ + " "@ + seq!['"'] + filename@
        + seq!['"']);
    assert(received.target@ is Query);
    assert(sent.target@ is Query);
}

/// A line moved to another buffer is the same line otherwise, and a line moved twice is
/// where it was moved last.
pub proof fn law_moved_line_keeps_the_rest(
    line: Message,
    first: Target,
    last: Target,
    moved: Message,
    twice: Message,
)
    requires
        call_ensures(Message::with_target, (line, first), moved),
        call_ensures(Message::with_target, (moved, last), twice),
    ensures
        moved.target == first,
        moved.text == line.text,
        moved.direction == line.direction,
        moved.received_at == line.received_at,
        moved.server_time == line.server_time,
        twice.target == last,
        twice.text == line.text,
{
}

/// The same number of lines is shown from either end.
pub proof fn law_limits(top: Limit, bottom: Limit)
    requires
        call_ensures(Limit::top, (), top),
        call_ensures(Limit::bottom, (), bottom),
    ensures
        top == Limit::Top(500),
        bottom == Limit::Bottom(500),
{
}

} // verus!
