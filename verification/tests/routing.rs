use irc_message::message::source::server::{Kind, Server};
use irc_message::message::{target, Encoded, Source, Target};
use irc_message::proto::{self, is_channel, Command, Numeric};
use irc_message::user::{AccessLevel, Nick, User};

fn message(sender: Option<&str>, command: Command) -> Encoded {
    Encoded::from(proto::Message {
        tags: vec![],
        source: sender.map(|nickname| {
            proto::Source::User(proto::User {
                nickname: nickname.to_string(),
                username: None,
                hostname: None,
            })
        }),
        command,
    })
}

fn member(nickname: &str) -> User {
    User {
        nickname: Nick::new(nickname),
        username: None,
        hostname: None,
        access_level: AccessLevel::Member,
    }
}

fn voiced(nickname: &str) -> User {
    User {
        access_level: AccessLevel::Voice,
        ..member(nickname)
    }
}

fn routed(sender: Option<&str>, command: Command) -> Option<Target> {
    target(message(sender, command), &Nick::new("me"), None)
}

fn server_line() -> Option<Target> {
    Some(Target::Server {
        source: Source::Server(None),
    })
}

fn report(channel: &str, server: Option<Server>) -> Option<Target> {
    Some(Target::Channel {
        channel: channel.to_string(),
        source: Source::Server(server),
    })
}

fn query(nick: &str, source: Source) -> Option<Target> {
    Some(Target::Query {
        nick: Nick::new(nick),
        source,
    })
}

fn privmsg(target: &str, text: &str) -> Command {
    Command::PRIVMSG(target.to_string(), text.to_string())
}

fn notice(target: &str, text: &str) -> Command {
    Command::NOTICE(target.to_string(), text.to_string())
}

fn reply(numeric: Numeric, params: &[&str]) -> Option<Target> {
    routed(
        None,
        Command::Numeric(numeric, params.iter().map(|s| s.to_string()).collect()),
    )
}

const ACTION: &str = "\u{1}ACTION waves\u{1}";

#[test]
fn channel_events() {
    assert_eq!(
        routed(None, Command::TOPIC("#rust".to_string(), None)),
        report("#rust", None)
    );
    assert_eq!(
        routed(
            Some("bob"),
            Command::KICK("#rust".to_string(), "eve".to_string(), None)
        ),
        report("#rust", None)
    );
    assert_eq!(
        routed(Some("bob"), Command::PART("#rust".to_string(), None)),
        report(
            "#rust",
            Some(Server::new(Kind::Part, Some(Nick::new("bob"))))
        )
    );
    assert_eq!(
        routed(Some("bob"), Command::JOIN("#rust".to_string(), None)),
        report(
            "#rust",
            Some(Server::new(Kind::Join, Some(Nick::new("bob"))))
        )
    );
    assert_eq!(routed(None, Command::PART("#rust".to_string(), None)), None);
    assert_eq!(routed(None, Command::JOIN("#rust".to_string(), None)), None);
}

#[test]
fn modes() {
    assert_eq!(
        routed(None, Command::MODE("#rust".to_string(), vec![], vec![])),
        report("#rust", None)
    );
    assert_eq!(
        routed(None, Command::MODE("me".to_string(), vec![], vec![])),
        server_line()
    );
}

#[test]
fn replies() {
    let topic = Some(Server::new(Kind::ReplyTopic, None));
    assert_eq!(
        reply(Numeric::RPL_TOPIC, &["me", "#rust", "hi"]),
        report("#rust", topic.clone())
    );
    assert_eq!(
        reply(Numeric::RPL_TOPICWHOTIME, &["me", "#rust"]),
        report("#rust", topic)
    );
    assert_eq!(reply(Numeric::RPL_TOPIC, &["me"]), None);
    assert_eq!(
        reply(Numeric::RPL_CHANNELMODEIS, &["me", "#rust", "+n"]),
        report("#rust", None)
    );
    assert_eq!(reply(Numeric::RPL_CHANNELMODEIS, &["me"]), None);
    assert_eq!(
        reply(Numeric::RPL_AWAY, &["me", "bob"]),
        query("bob", Source::Action)
    );
    assert_eq!(reply(Numeric::RPL_AWAY, &["me", ""]), None);
    assert_eq!(reply(Numeric::RPL_AWAY, &["me"]), None);
    assert_eq!(reply(Numeric::RPL_ENDOFWHOIS, &["me"]), server_line());
    assert_eq!(reply(Numeric::Other(372), &[]), server_line());
}

#[test]
fn messages_to_a_channel() {
    let said = |source| {
        Some(Target::Channel {
            channel: "#rust".to_string(),
            source,
        })
    };
    for command in [privmsg("#rust", "hi"), notice("#rust", "hi")] {
        assert_eq!(
            routed(Some("bob"), command.clone()),
            said(Source::User(member("bob")))
        );
        assert_eq!(
            target(
                message(Some("bob"), command),
                &Nick::new("me"),
                Some(voiced("bob"))
            ),
            said(Source::User(voiced("bob")))
        );
    }
    assert_eq!(
        routed(Some("bob"), privmsg("#rust", ACTION)),
        said(Source::Action)
    );
    assert_eq!(
        routed(Some("bob"), notice("#rust", ACTION)),
        said(Source::Action)
    );
    assert_eq!(routed(None, privmsg("#rust", "hi")), None);
    assert_eq!(routed(None, notice("#rust", "hi")), server_line());
}

#[test]
fn conversation_has_one_buffer() {
    assert_eq!(
        routed(Some("bob"), privmsg("me", "hi")),
        query("bob", Source::User(member("bob")))
    );
    assert_eq!(
        routed(Some("me"), privmsg("bob", "hello")),
        query("bob", Source::User(member("me")))
    );
    assert_eq!(
        routed(Some("me"), privmsg("bob", ACTION)),
        query("bob", Source::Action)
    );
    assert_eq!(routed(Some("me"), privmsg("", "hello")), None);
    assert_eq!(routed(None, privmsg("me", "hello")), None);
}

#[test]
fn lookup_moves_no_direct_message() {
    assert_eq!(
        target(
            message(Some("bob"), privmsg("me", "hi")),
            &Nick::new("me"),
            Some(voiced("eve"))
        ),
        query("bob", Source::User(member("bob")))
    );
}

#[test]
fn notices_to_users() {
    assert_eq!(
        routed(Some("bob"), notice("me", "hi")),
        query("bob", Source::User(member("bob")))
    );
    assert_eq!(
        routed(Some("bob"), notice("me", ACTION)),
        query("bob", Source::Action)
    );
    assert_eq!(routed(Some("bob"), notice("eve", "hi")), None);
    assert_eq!(routed(Some("bob"), notice("", "hi")), None);
    assert_eq!(routed(None, notice("*", "hi")), server_line());
}

#[test]
fn other_commands() {
    assert_eq!(routed(Some("bob"), Command::QUIT(None)), server_line());
    assert_eq!(
        routed(None, Command::Unknown("FOO".to_string(), vec![])),
        server_line()
    );
    assert_eq!(routed(None, Command::INFO), server_line());
}

#[test]
fn sources_of_targets() {
    let target = report("#rust", None).unwrap();
    assert_eq!(target.source(), &Source::Server(None));
    let target = query("bob", Source::Action).unwrap();
    assert_eq!(target.source(), &Source::Action);
    let target = server_line().unwrap();
    assert_eq!(target.source(), &Source::Server(None));
}

#[test]
fn channel_names() {
    assert!(is_channel("#rust"));
    assert!(is_channel("&local"));
    assert!(is_channel("+open"));
    assert!(is_channel("!ABCDEsafe"));
    assert!(is_channel("#"));
    assert!(!is_channel(""));
    assert!(!is_channel("bob"));
    assert!(!is_channel("#a,#b"));
    assert!(!is_channel("#a b"));
    assert!(!is_channel("#a\u{7}"));
    assert!(!is_channel("b#"));
}
