//! What holds of every message, whoever sends it.
use vstd::prelude::*;
use vstd::std_specs::convert::FromSpec;

use super::action_line;
use super::first_tag;
use super::lookup;
use super::reports_action;
use super::routing::server_line;
use super::routing::target_view;
use super::sender;
use super::shows;
use super::source::SourceView;
use super::tagged_moment;
use super::wording::text_view;
use super::Direction;
use super::Encoded;
use super::Message;
use super::TargetView;
use crate::config::Config;
use crate::ctcp::QueryView;
use crate::ctcp::DELIMITER;
use crate::proto;
use crate::proto::names_channel;
use crate::proto::Command;
use crate::proto::Numeric;
use crate::strings::occurs;
use crate::strings::stands_at;
use crate::time::rfc3339_moment;
use crate::user::is_plain;
use crate::user::law_plain_name_names_itself;
use crate::user::lemma_find_skips;
use crate::user::UserView;

verus! {

/// Taking a message for one that came over the wire, and back, changes nothing.
pub proof fn law_encoding_keeps_message(message: proto::Message)
    ensures
        <proto::Message as FromSpec<Encoded>>::from_spec(
            <Encoded as FromSpec<proto::Message>>::from_spec(message),
        ) == message,
{
}

/// How a client sends word of an action.
pub open spec fn action_query(action: Seq<char>) -> Seq<char> {
    seq![DELIMITER] + "ACTION"@ + seq![' '] + action + seq![DELIMITER]
}

/// An action that is sent, whatever it is, is read as an action with that very
/// text.
pub proof fn law_action_is_read_back(action: Seq<char>)
    ensures
        QueryView::parse(action_query(action)) == Some(
            QueryView { command: "ACTION"@, params: action },
        ),
        reports_action(action_query(action)),
{
    let text = action_query(action);
    let query = "ACTION"@ + seq![' '] + action;
    reveal_strlit("ACTION");
    assert(text.last() == DELIMITER);
    assert(text.drop_last() =~= seq![DELIMITER] + query);
    assert(text.drop_last().skip(1) =~= query);
    lemma_find_skips("ACTION"@, ' ', action);
    assert(query.take(6) =~= "ACTION"@);
    assert(query.skip(7) =~= action);
}

/// The delimiter at the end may be missing, unless the action itself ends in
/// one.
pub proof fn law_action_may_be_open_ended(action: Seq<char>)
    requires
        action.len() > 0 ==> action.last() != DELIMITER,
    ensures
        QueryView::parse(action_query(action).drop_last()) == QueryView::parse(
            action_query(action),
        ),
{
    law_action_is_read_back(action);
    let text = action_query(action).drop_last();
    let query = "ACTION"@ + seq![' '] + action;
    reveal_strlit("ACTION");
    assert(text =~= seq![DELIMITER] + query);
    assert(action.len() > 0 ==> text.last() == action.last());
    assert(action.len() == 0 ==> text.last() == ' ');
    assert(text.skip(1) =~= query);
    lemma_find_skips("ACTION"@, ' ', action);
    assert(query.take(6) =~= "ACTION"@);
    assert(query.skip(7) =~= action);
}

/// A message is shown as it is written, unless it is a query from a user; then
/// the line tells what that user does.
pub proof fn law_text_is_shown_as_written(
    message: proto::Message,
    our_nick: Seq<char>,
    config: Config,
    resolved: Option<UserView>,
)
    requires
        message.command is PRIVMSG,
    ensures
        ({
            let text = message.command->PRIVMSG_1@;
            let line = text_view(message, our_nick, config, resolved);
            &&& QueryView::parse(text) is None ==> line == Some(text)
            &&& sender(message) is None ==> line == Some(text)
            &&& sender(message) matches Some(user) ==> QueryView::parse(text) matches Some(
                query,
            ) ==> line == Some(action_line(user.nickname, query.params))
        }),
{
}

/// A message that reports an action is shown as one: the line tells what its
/// sender does, and counts as done, not as said.
pub proof fn law_action_is_shown_as_one(
    message: proto::Message,
    our_nick: Seq<char>,
    config: Config,
    resolved: Option<UserView>,
)
    requires
        message.command matches Command::PRIVMSG(_, text) && reports_action(text@),
        sender(message) is Some,
    ensures
        ({
            let query = QueryView::parse(message.command->PRIVMSG_1@)->0;
            let nickname = (sender(message)->0).nickname;
            &&& text_view(message, our_nick, config, resolved) == Some(
                action_line(nickname, query.params),
            )
            &&& target_view(message, our_nick, resolved) matches Some(target)
                ==> target.source() == SourceView::Action
        }),
{
}

/// Whatever a user does in a channel is shown in that channel.
pub proof fn law_channel_keeps_its_lines(
    message: proto::Message,
    our_nick: Seq<char>,
    resolved: Option<UserView>,
)
    requires
        lookup(message) is Some,
    ensures
        ({
            let (_, channel) = lookup(message)->0;
            &&& target_view(message, our_nick, resolved) matches Some(target)
            &&& target matches TargetView::Channel { channel: shown_in, .. }
            &&& shown_in == channel
        }),
{
}

/// There is a lookup exactly for a user who sends a message or notice to a
/// channel, changes its modes or topic, joins or leaves it, or kicks someone from
/// it; and it is one for that user in that channel.
pub proof fn law_lookup_is_for_acts_in_channels(message: proto::Message)
    ensures
        lookup(message) == (match (sender(message), message.command) {
            (
                Some(user),
                Command::PRIVMSG(target, _)
                | Command::NOTICE(target, _)
                | Command::MODE(target, _, _),
            ) => if names_channel(target@) {
                Some((user, target@))
            } else {
                None
            },
            (
                Some(user),
                Command::TOPIC(channel, _)
                | Command::JOIN(channel, _)
                | Command::PART(channel, _)
                | Command::KICK(channel, _, _),
            ) => Some((user, channel@)),
            _ => None,
        }),
{
}

/// The buffer of a message and the source of its line depend on the lookup only
/// where a user sends a message or notice to a channel.
pub proof fn law_lookup_matters_to_target_only_for_texts(
    message: proto::Message,
    our_nick: Seq<char>,
    one: Option<UserView>,
    other: Option<UserView>,
)
    requires
        match (sender(message), message.command) {
            (Some(_), Command::PRIVMSG(target, _) | Command::NOTICE(target, _)) => !names_channel(
                target@,
            ),
            _ => true,
        },
    ensures
        target_view(message, our_nick, one) == target_view(message, our_nick, other),
{
}

/// The text of a line depends on the lookup only where the buffer and the source
/// do not: no message needs its answer for both.
pub proof fn law_lookup_serves_text_or_target(
    message: proto::Message,
    our_nick: Seq<char>,
    config: Config,
    one: Option<UserView>,
    other: Option<UserView>,
)
    ensures
        text_view(message, our_nick, config, one) == text_view(message, our_nick, config, other)
            || target_view(message, our_nick, one) == target_view(message, our_nick, other),
{
}

/// What the lookup for a sender would answer makes no difference to a message
/// for which there is none.
pub proof fn law_lookup_matters_only_where_made(
    message: proto::Message,
    our_nick: Seq<char>,
    config: Config,
    one: Option<UserView>,
    other: Option<UserView>,
)
    requires
        lookup(message) is None,
    ensures
        text_view(message, our_nick, config, one) == text_view(message, our_nick, config, other),
        target_view(message, our_nick, one) == target_view(message, our_nick, other),
{
}

/// The lookup for a sender never changes in which buffer a message is shown, nor
/// whether it has one.
pub proof fn law_lookup_moves_no_message(
    message: proto::Message,
    our_nick: Seq<char>,
    one: Option<UserView>,
    other: Option<UserView>,
)
    ensures
        match (target_view(message, our_nick, one), target_view(message, our_nick, other)) {
            (
                Some(TargetView::Channel { channel: a, .. }),
                Some(TargetView::Channel { channel: b, .. }),
            ) => a == b,
            (a, b) => a == b,
        },
{
}

/// The texts that two users send each other stand in one buffer, that of the
/// other one, also those that another client of ours has sent.
pub proof fn law_conversation_has_one_buffer(
    theirs: proto::Message,
    ours: proto::Message,
    our_nick: Seq<char>,
    their_nick: Seq<char>,
    resolved: Option<UserView>,
)
    requires
        is_plain(their_nick),
        our_nick != their_nick,
        !names_channel(our_nick),
        !names_channel(their_nick),
        sender(theirs) matches Some(user) && user.nickname == their_nick,
        theirs.command matches Command::PRIVMSG(target, _) && target@ == our_nick,
        sender(ours) matches Some(user) && user.nickname == our_nick,
        ours.command matches Command::PRIVMSG(target, _) && target@ == their_nick,
    ensures
        target_view(theirs, our_nick, resolved) matches Some(TargetView::Query { nick, .. })
            && nick == their_nick,
        target_view(ours, our_nick, resolved) matches Some(TargetView::Query { nick, .. }) && nick
            == their_nick,
{
    law_plain_name_names_itself(their_nick);
}

/// Any text that a user sends as a message, if it is shown, is news.
pub proof fn law_messages_are_news(
    line: Message,
    message: proto::Message,
    our_nick: Seq<char>,
    config: Config,
    resolved: Option<UserView>,
)
    requires
        message.command is PRIVMSG,
        shows(Some(line), message, our_nick, config, resolved),
    ensures
        line.is_news(),
{
}

/// So is a notice from a user, and that a user is away.
pub proof fn law_notices_and_absence_are_news(
    line: Message,
    message: proto::Message,
    our_nick: Seq<char>,
    config: Config,
    resolved: Option<UserView>,
)
    requires
        match message.command {
            Command::NOTICE(_, _) => sender(message) is Some,
            Command::Numeric(numeric, _) => numeric == Numeric::RPL_AWAY,
            _ => false,
        },
        shows(Some(line), message, our_nick, config, resolved),
    ensures
        line.is_news(),
{
}

/// Only what a user has sent, as a message or a notice, and that a user is away
/// can be news; what the server says or reports is not.
pub proof fn law_reports_are_no_news(
    line: Message,
    message: proto::Message,
    our_nick: Seq<char>,
    config: Config,
    resolved: Option<UserView>,
)
    requires
        shows(Some(line), message, our_nick, config, resolved),
        line.is_news(),
    ensures
        match message.command {
            Command::PRIVMSG(_, _) | Command::NOTICE(_, _) => sender(message) is Some,
            Command::Numeric(numeric, _) => numeric == Numeric::RPL_AWAY,
            _ => false,
        },
{
}

/// A file that someone wants to send us is news; one that we offer is not.
pub proof fn law_only_requests_received_are_news(line: Message, nick: Seq<char>)
    requires
        line.target@ == (TargetView::Query { nick, source: SourceView::Action }),
    ensures
        line.is_news() == (line.direction == Direction::Received),
{
}

/// That we have joined a channel ourselves is never shown, as long as the lookup
/// does not rename us.
pub proof fn law_own_join_is_not_shown(
    line: Option<Message>,
    message: proto::Message,
    our_nick: Seq<char>,
    config: Config,
    resolved: Option<UserView>,
)
    requires
        message.command is JOIN,
        sender(message) matches Some(user) && user.nickname == our_nick,
        resolved matches Some(user) ==> user.nickname == our_nick,
        shows(line, message, our_nick, config, resolved),
    ensures
        line is None,
{
}

/// The end of what a server tells of a user is never shown.
pub proof fn law_end_of_whois_is_not_shown(
    line: Option<Message>,
    message: proto::Message,
    our_nick: Seq<char>,
    config: Config,
    resolved: Option<UserView>,
)
    requires
        message.command matches Command::Numeric(numeric, _) && numeric == Numeric::RPL_ENDOFWHOIS,
        shows(line, message, our_nick, config, resolved),
    ensures
        line is None,
{
}

/// A text that comes from no user is shown with the server's own lines if it is
/// a notice, and else not at all.
pub proof fn law_text_without_sender(
    message: proto::Message,
    our_nick: Seq<char>,
    resolved: Option<UserView>,
)
    requires
        sender(message) is None,
    ensures
        message.command is NOTICE ==> target_view(message, our_nick, resolved) == Some(
            server_line(),
        ),
        message.command is PRIVMSG ==> target_view(message, our_nick, resolved) is None,
{
}

/// A notice between other users is not shown.
pub proof fn law_foreign_notice_is_not_shown(
    message: proto::Message,
    our_nick: Seq<char>,
    their_nick: Seq<char>,
    resolved: Option<UserView>,
)
    requires
        sender(message) is Some,
        is_plain(their_nick),
        their_nick != our_nick,
        !names_channel(their_nick),
        message.command matches Command::NOTICE(target, _) && target@ == their_nick,
    ensures
        target_view(message, our_nick, resolved) is None,
{
    law_plain_name_names_itself(their_nick);
}

/// A text that speaks of us still does with more text before and behind it.
pub proof fn law_reference_survives_more_text(
    own_nick: Seq<char>,
    text: Seq<char>,
    before: Seq<char>,
    behind: Seq<char>,
)
    requires
        occurs(own_nick, text),
    ensures
        occurs(own_nick, before + text + behind),
{
    let i = choose|i: int| stands_at(own_nick, text, i);
    let whole = before + text + behind;
    let at = before.len() + i;
    assert(whole.subrange(at, at + own_nick.len()) =~= text.subrange(i, i + own_nick.len()));
    assert(stands_at(own_nick, whole, at));
}

/// The first tag for the time decides: tags with other keys before it, and any
/// tags behind it, change nothing.
pub proof fn law_first_time_tag_decides(
    message: proto::Message,
    other: proto::Message,
    before: Seq<proto::Tag>,
    tag: proto::Tag,
    behind: Seq<proto::Tag>,
)
    requires
        tag.key@ == "time"@,
        forall|i: int| 0 <= i < before.len() ==> (#[trigger] before[i]).key@ != "time"@,
        message.tags@ == before + seq![tag] + behind,
        other.tags@ == seq![tag],
    ensures
        tagged_moment(message) == tagged_moment(other),
{
    lemma_first_tag(before, tag, behind);
    lemma_first_tag(seq![], tag, seq![]);
    assert(seq![] + seq![tag] + seq![] =~= seq![tag]);
}

/// Where the first tag for the time names no moment, the message carries none,
/// whatever the tags behind it say.
pub proof fn law_later_time_tags_are_no_fallback(
    message: proto::Message,
    before: Seq<proto::Tag>,
    tag: proto::Tag,
    behind: Seq<proto::Tag>,
)
    requires
        tag.key@ == "time"@,
        tag.value matches Some(value) ==> rfc3339_moment(value@) is None,
        forall|i: int| 0 <= i < before.len() ==> (#[trigger] before[i]).key@ != "time"@,
        message.tags@ == before + seq![tag] + behind,
    ensures
        tagged_moment(message) is None,
{
    lemma_first_tag(before, tag, behind);
}

/// The first tag with a key is found behind tags with other keys.
pub proof fn lemma_first_tag(before: Seq<proto::Tag>, tag: proto::Tag, behind: Seq<proto::Tag>)
    requires
        forall|i: int| 0 <= i < before.len() ==> (#[trigger] before[i]).key@ != tag.key@,
    ensures
        first_tag(before + seq![tag] + behind, tag.key@) == Some(tag),
    decreases before.len(),
{
    let tags = before + seq![tag] + behind;
    if before.len() > 0 {
        let rest = before.drop_first();
        assert forall|i: int| 0 <= i < rest.len() implies (#[trigger] rest[i]).key@ != tag.key@ by {
            assert(rest[i] == before[i + 1]);
        }
        lemma_first_tag(rest, tag, behind);
        assert(tags.drop_first() =~= rest + seq![tag] + behind);
        assert(tags[0] == before[0]);
    } else {
        assert(tags[0] == tag);
    }
}

} // verus!
