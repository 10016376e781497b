use std::cell::RefCell;

use irc_message::config::{Buffer, Config, ServerMessage, ServerMessages, UsernameFormat};
use irc_message::ctcp::parse_query;
use irc_message::message::{
    action_text, is_action, parse_action, reference_user, server_time, server_time_at, Direction, Encoded,
    Limit, Message, Source, Target,
};
use irc_message::proto::{self, Command, Numeric, Tag};
use irc_message::time::{DateTime, Posix};
use irc_message::user::{AccessLevel, Nick, NickRef, User};

fn config() -> Config {
    let message = ServerMessage {
        username_format: UsernameFormat::Short,
    };
    Config {
        buffer: Buffer {
            server_messages: ServerMessages {
                join: message,
                part: message,
            },
        },
    }
}

fn tag(key: &str, value: Option<&str>) -> Tag {
    Tag {
        key: key.to_string(),
        value: value.map(|v| v.to_string()),
    }
}

fn bob() -> proto::Source {
    proto::Source::User(proto::User {
        nickname: "bob".to_string(),
        username: Some("bobby".to_string()),
        hostname: Some("example.org".to_string()),
    })
}

fn encoded(tags: Vec<Tag>, source: Option<proto::Source>, command: Command) -> Encoded {
    Encoded::from(proto::Message {
        tags,
        source,
        command,
    })
}

fn privmsg(tags: Vec<Tag>, target: &str, text: &str) -> Encoded {
    encoded(
        tags,
        Some(bob()),
        Command::PRIVMSG(target.to_string(), text.to_string()),
    )
}

fn nobody(_: &User, _: &str) -> Option<User> {
    None
}

fn seconds_now() -> u64 {
    std::time::SystemTime::now()
        .duration_since(std::time::UNIX_EPOCH)
        .unwrap()
        .as_secs()
}

#[test]
fn encoded_round_trip_and_access() {
    let mut message = privmsg(vec![], "#rust", "hi");
    assert_eq!(message.tags.len(), 0);
    message.tags.push(tag("time", None));
    let message: proto::Message = message.into();
    assert_eq!(message.tags.len(), 1);
    assert_eq!(message.tags[0].key, "time");
}

#[test]
fn user_of_a_message() {
    let user = privmsg(vec![], "#rust", "hi").user().unwrap();
    assert_eq!(user.nickname, Nick::new("bob"));
    assert_eq!(user.username.as_deref(), Some("bobby"));
    assert_eq!(user.hostname.as_deref(), Some("example.org"));
    assert_eq!(user.access_level, AccessLevel::Member);
    let server = proto::Source::Server("irc.example.org".to_string());
    assert!(encoded(vec![], Some(server), Command::INFO).user().is_none());
    assert!(encoded(vec![], None, Command::INFO).user().is_none());
}

#[test]
fn tagged_server_time() {
    let message = privmsg(
        vec![
            tag("msgid", Some("1")),
            tag("time", Some("2001-09-09T03:46:40.250+02:00")),
            tag("time", Some("1999-01-01T00:00:00Z")),
        ],
        "#rust",
        "hi",
    );
    let time = server_time(&message);
    assert_eq!(time.timestamp(), 1_000_000_000);
    assert_eq!(time.timestamp_subsec_nanos(), 250_000_000);
    assert_eq!(message.tagged_time(), Some(time));
}

#[test]
fn leap_second_in_a_tag() {
    let message = privmsg(
        vec![tag("time", Some("2016-12-31T23:59:60Z"))],
        "#rust",
        "hi",
    );
    let time = message.tagged_time().unwrap();
    assert_eq!(time.timestamp(), 1_483_228_799);
    assert_eq!(time.timestamp_subsec_nanos(), 1_000_000_000);
}

#[test]
fn first_time_tag_decides_even_without_a_moment() {
    for value in [None, Some("yesterday")] {
        let message = privmsg(
            vec![
                tag("time", value),
                tag("time", Some("2001-09-09T01:46:40Z")),
            ],
            "#rust",
            "hi",
        );
        assert_eq!(message.tagged_time(), None);
        let before = seconds_now() as i64;
        let time = server_time(&message).timestamp();
        assert!(before <= time && time <= seconds_now() as i64);
    }
}

#[test]
fn server_time_for_a_given_clock() {
    let now = DateTime::from_timestamp(5, 6).unwrap();
    let untagged = privmsg(vec![tag("msgid", Some("1"))], "#rust", "hi");
    assert_eq!(server_time_at(&untagged, now), now);
    let unreadable = privmsg(
        vec![
            tag("time", Some("yesterday")),
            tag("time", Some("2001-09-09T01:46:40Z")),
        ],
        "#rust",
        "hi",
    );
    assert_eq!(server_time_at(&unreadable, now), now);
    let tagged = privmsg(
        vec![tag("time", Some("2001-09-09T01:46:40Z"))],
        "#rust",
        "hi",
    );
    assert_eq!(server_time_at(&tagged, now).timestamp(), 1_000_000_000);
}

#[test]
fn untagged_server_time_is_the_present() {
    let before = seconds_now() as i64;
    let time = server_time(&privmsg(vec![], "#rust", "hi")).timestamp();
    assert!(before <= time && time <= seconds_now() as i64);
}

#[test]
fn lookup_is_for_acts_in_channels() {
    let asked = |source: Option<proto::Source>, command: Command| {
        let asked = RefCell::new(vec![]);
        encoded(vec![], source, command).resolve(|user: &User, channel: &str| {
            asked
                .borrow_mut()
                .push(format!("{} {}", user.display(), channel));
            None
        });
        asked.into_inner()
    };
    let channel = || "#rust".to_string();
    let nick = || "eve".to_string();
    for command in [
        Command::PRIVMSG(channel(), String::new()),
        Command::NOTICE(channel(), String::new()),
        Command::MODE(channel(), vec![], vec![]),
        Command::TOPIC(channel(), None),
        Command::JOIN(channel(), None),
        Command::PART(channel(), None),
        Command::KICK(channel(), nick(), None),
    ] {
        assert_eq!(asked(Some(bob()), command.clone()), vec!["bob #rust"]);
        assert!(asked(None, command).is_empty());
    }
    for command in [
        Command::PRIVMSG(nick(), String::new()),
        Command::NOTICE(nick(), String::new()),
        Command::MODE(nick(), vec![], vec![]),
        Command::QUIT(None),
        Command::Numeric(Numeric::RPL_TOPIC, vec![nick(), channel()]),
    ] {
        assert!(asked(Some(bob()), command).is_empty());
    }
}

#[test]
fn received_message_in_a_channel() {
    let asked = RefCell::new(vec![]);
    let message = privmsg(
        vec![tag("time", Some("2001-09-09T01:46:40Z"))],
        "#rust",
        "hi",
    );
    let before = seconds_now();
    let line = Message::received(message, Nick::new("me"), &config(), |user, channel| {
        asked
            .borrow_mut()
            .push((user.nickname.name.clone(), channel.to_string()));
        Some(User {
            access_level: AccessLevel::Owner,
            ..user.clone()
        })
    })
    .unwrap();
    assert_eq!(
        *asked.borrow(),
        vec![("bob".to_string(), "#rust".to_string())]
    );
    assert!(before <= line.received_at.seconds && line.received_at.seconds <= seconds_now());
    assert_eq!(line.server_time.timestamp(), 1_000_000_000);
    assert!(matches!(line.direction, Direction::Received));
    assert_eq!(line.text, "hi");
    match &line.target {
        Target::Channel {
            channel,
            source: Source::User(user),
        } => {
            assert_eq!(channel, "#rust");
            assert_eq!(user.display(), "~bob");
        }
        _ => panic!("not in the channel"),
    }
    assert!(line.triggers_unread());
}

#[test]
fn received_message_to_us_asks_for_nothing() {
    let line = Message::received(
        privmsg(vec![], "me", "hi"),
        Nick::new("me"),
        &config(),
        |_, _| panic!("asked for attributes"),
    )
    .unwrap();
    assert!(matches!(&line.target, Target::Query { nick, .. } if *nick == Nick::new("bob")));
}

#[test]
fn received_needs_text_and_target() {
    let own_join = encoded(
        vec![],
        Some(bob()),
        Command::JOIN("#rust".to_string(), None),
    );
    assert!(Message::received(own_join, Nick::new("bob"), &config(), nobody).is_none());
    let foreign_notice = encoded(
        vec![],
        Some(bob()),
        Command::NOTICE("eve".to_string(), "psst".to_string()),
    );
    assert!(Message::received(foreign_notice, Nick::new("me"), &config(), nobody).is_none());
    let end = encoded(
        vec![],
        None,
        Command::Numeric(Numeric::RPL_ENDOFWHOIS, vec![]),
    );
    assert!(Message::received(end, Nick::new("me"), &config(), nobody).is_none());
}

#[test]
fn notices_and_absence_are_news() {
    let news = |source: Option<proto::Source>, command: Command| {
        Message::received(
            encoded(vec![], source, command),
            Nick::new("me"),
            &config(),
            nobody,
        )
        .unwrap()
        .triggers_unread()
    };
    let notice = Command::NOTICE("me".to_string(), "hi".to_string());
    assert!(news(Some(bob()), notice.clone()));
    assert!(!news(None, notice));
    let params = vec!["me".to_string(), "bob".to_string()];
    assert!(news(
        None,
        Command::Numeric(Numeric::RPL_AWAY, params.clone())
    ));
    assert!(!news(None, Command::Numeric(Numeric::Other(372), params)));
}

#[test]
fn assembled_line_keeps_its_times() {
    let server_time = DateTime::from_timestamp(7, 8).unwrap();
    let received_at = Posix::from_seconds(9);
    let line = Message::assemble(
        encoded(
            vec![],
            Some(bob()),
            Command::JOIN("#rust".to_string(), None),
        ),
        Nick::new("me"),
        &config(),
        None,
        server_time,
        received_at,
    )
    .unwrap();
    assert_eq!(line.server_time, server_time);
    assert_eq!(line.received_at, received_at);
    assert_eq!(line.text, "⟶ bob has joined the channel");
    assert!(!line.triggers_unread());
}

#[test]
fn file_transfers() {
    let line = Message::file_transfer_request_received(&Nick::new("bob"), "cat.png");
    assert_eq!(line.text, " ∙ bob wants to send you \"cat.png\"");
    assert!(matches!(line.direction, Direction::Received));
    assert_eq!(
        line.target,
        Target::Query {
            nick: Nick::new("bob"),
            source: Source::Action
        }
    );
    assert!(line.triggers_unread());

    let line = Message::file_transfer_request_sent(&Nick::new("bob"), "cat.png");
    assert_eq!(line.text, " ∙ offering to send bob \"cat.png\"");
    assert!(matches!(line.direction, Direction::Sent));
    assert!(!line.triggers_unread());
    let now = seconds_now();
    assert!(line.received_at.seconds <= now && now - line.received_at.seconds < 60);
    assert!(now as i64 - line.server_time.timestamp() < 60);
}

#[test]
fn line_in_another_buffer() {
    let line = Message::file_transfer_request_received(&Nick::new("bob"), "cat.png");
    let (text, received_at) = (line.text.clone(), line.received_at);
    let target = Target::Server {
        source: Source::Server(None),
    };
    let moved = line.with_target(target.clone());
    assert_eq!(moved.target, target);
    assert_eq!(moved.text, text);
    assert_eq!(moved.received_at, received_at);
    assert!(!moved.triggers_unread());
}

#[test]
fn actions() {
    assert!(is_action("\u{1}ACTION waves\u{1}"));
    assert!(is_action("\u{1}ACTION waves"));
    assert!(is_action("\u{1}ACTION\u{1}"));
    assert!(!is_action("\u{1}VERSION\u{1}"));
    assert!(!is_action("\u{1}ACTIONS x\u{1}"));
    assert!(!is_action("\u{1}action waves\u{1}"));
    assert!(!is_action("ACTION waves"));
    assert!(!is_action("\u{1}"));
    assert!(!is_action(""));
    let nick = NickRef { name: "bob" };
    assert_eq!(action_text(nick, "waves"), " ∙ bob waves");
    assert_eq!(
        parse_action(nick, "\u{1}ACTION waves at me\u{1}").unwrap(),
        " ∙ bob waves at me"
    );
    assert_eq!(
        parse_action(nick, "\u{1}PING 123\u{1}").unwrap(),
        " ∙ bob 123"
    );
    assert_eq!(parse_action(nick, "hello"), None);
}

#[test]
fn any_action_is_read_back() {
    for action in ["", "waves", " two  spaces ", "∙ ⟵ 黑", "\u{1}", "a\u{1}b"] {
        let text = format!("\u{1}ACTION {action}\u{1}");
        let query = parse_query(&text).unwrap();
        assert_eq!(query.command, "ACTION");
        assert_eq!(query.params, action);
    }
}

#[test]
fn references() {
    let me = NickRef { name: "me" };
    let bob = NickRef { name: "bob" };
    assert!(reference_user(bob, me, "hello me"));
    assert!(reference_user(bob, me, "something"));
    assert!(!reference_user(bob, me, "hello"));
    assert!(!reference_user(bob, me, "m"));
    assert!(!reference_user(bob, me, "ME"));
    assert!(!reference_user(me, me, "hello me"));
    assert!(reference_user(bob, NickRef { name: "" }, ""));
    assert!(reference_user(bob, NickRef { name: "aab" }, "aaab"));
    assert!(reference_user(bob, NickRef { name: "é" }, "xé∙"));
}

#[test]
fn limits() {
    assert!(matches!(Limit::top(), Limit::Top(500)));
    assert!(matches!(Limit::bottom(), Limit::Bottom(500)));
    assert_eq!(Limit::DEFAULT_STEP, 50);
    assert!(matches!(
        Limit::Since(Posix::from_seconds(5)),
        Limit::Since(Posix {
            seconds: 5,
            nanos: 0
        })
    ));
}
