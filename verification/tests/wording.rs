use irc_message::config::{Buffer, Config, ServerMessage, ServerMessages, UsernameFormat};
use irc_message::message::{text, Encoded};
use irc_message::proto::{self, Command, Numeric};
use irc_message::user::{AccessLevel, Nick, User};

fn config(format: UsernameFormat) -> Config {
    let message = ServerMessage {
        username_format: format,
    };
    Config {
        buffer: Buffer {
            server_messages: ServerMessages {
                join: message,
                part: message,
            },
        },
    }
}

fn from_bob(command: Command) -> Encoded {
    Encoded::from(proto::Message {
        tags: vec![],
        source: Some(proto::Source::User(proto::User {
            nickname: "bob".to_string(),
            username: Some("bobby".to_string()),
            hostname: Some("example.org".to_string()),
        })),
        command,
    })
}

fn from_server(command: Command) -> Encoded {
    Encoded::from(proto::Message {
        tags: vec![],
        source: Some(proto::Source::Server("irc.example.org".to_string())),
        command,
    })
}

fn oper_bob() -> User {
    User {
        nickname: Nick::new("bob"),
        username: None,
        hostname: None,
        access_level: AccessLevel::Oper,
    }
}

fn strings(list: &[&str]) -> Vec<String> {
    list.iter().map(|s| s.to_string()).collect()
}

fn line(message: &Encoded, resolved: Option<User>) -> Option<String> {
    assert!(message.has_fitting_dates());
    text(
        message,
        &Nick::new("me"),
        &config(UsernameFormat::Short),
        &resolved,
    )
}

fn reply(numeric: Numeric, params: &[&str]) -> Option<String> {
    line(&from_server(Command::Numeric(numeric, strings(params))), None)
}

#[test]
fn topic_change() {
    let message = from_bob(Command::TOPIC("#rust".to_string(), Some("Welcome".to_string())));
    assert_eq!(
        line(&message, None).unwrap(),
        " ∙ bob changed topic to Welcome"
    );
    assert_eq!(
        line(&message, Some(oper_bob())).unwrap(),
        " ∙ @bob changed topic to Welcome"
    );
}

#[test]
fn topic_without_text_or_user_has_no_line() {
    let message = from_bob(Command::TOPIC("#rust".to_string(), None));
    assert_eq!(line(&message, None), None);
    let message = from_server(Command::TOPIC("#rust".to_string(), Some("x".to_string())));
    assert_eq!(line(&message, None), None);
}

#[test]
fn part_with_and_without_reason() {
    let message = from_bob(Command::PART("#rust".to_string(), None));
    assert_eq!(line(&message, None).unwrap(), "⟵ bob has left the channel");
    let message = from_bob(Command::PART("#rust".to_string(), Some("bye".to_string())));
    assert_eq!(
        line(&message, Some(oper_bob())).unwrap(),
        "⟵ @bob has left the channel (bye)"
    );
    assert_eq!(
        text(
            &message,
            &Nick::new("me"),
            &config(UsernameFormat::Full),
            &None
        )
        .unwrap(),
        "⟵ bob (bobby@example.org) has left the channel (bye)"
    );
}

#[test]
fn join_of_others_is_shown_and_our_own_is_not() {
    let message = from_bob(Command::JOIN("#rust".to_string(), None));
    assert_eq!(line(&message, None).unwrap(), "⟶ bob has joined the channel");
    assert_eq!(
        text(
            &message,
            &Nick::new("me"),
            &config(UsernameFormat::Full),
            &None
        )
        .unwrap(),
        "⟶ bob (bobby@example.org) has joined the channel"
    );
    assert_eq!(
        text(
            &message,
            &Nick::new("bob"),
            &config(UsernameFormat::Short),
            &None
        ),
        None
    );
}

#[test]
fn kick_of_others_and_of_ourselves() {
    let message = from_bob(Command::KICK("#rust".to_string(), "eve".to_string(), None));
    assert_eq!(
        line(&message, None).unwrap(),
        "⟵ eve has been kicked by bob"
    );
    let message = from_bob(Command::KICK(
        "#rust".to_string(),
        "me".to_string(),
        Some("spam".to_string()),
    ));
    assert_eq!(
        line(&message, Some(oper_bob())).unwrap(),
        "⟵ you have been kicked by @bob (spam)"
    );
}

#[test]
fn mode_of_channel_and_of_user() {
    let message = from_bob(Command::MODE(
        "#rust".to_string(),
        strings(&["+o", "-v"]),
        strings(&["alice", "eve"]),
    ));
    assert_eq!(
        line(&message, None).unwrap(),
        " ∙ bob sets mode +o -v alice eve"
    );
    let message = from_bob(Command::MODE("#rust".to_string(), strings(&["+m"]), vec![]));
    assert_eq!(line(&message, None).unwrap(), " ∙ bob sets mode +m ");
    let message = from_bob(Command::MODE("bob".to_string(), strings(&["+i"]), vec![]));
    assert_eq!(line(&message, None), None);
}

#[test]
fn messages_and_notices() {
    let message = from_bob(Command::PRIVMSG("#rust".to_string(), "hello".to_string()));
    assert_eq!(line(&message, None).unwrap(), "hello");
    let action = "\u{1}ACTION waves\u{1}".to_string();
    let message = from_bob(Command::PRIVMSG("#rust".to_string(), action.clone()));
    assert_eq!(line(&message, Some(oper_bob())).unwrap(), " ∙ bob waves");
    let message = from_server(Command::PRIVMSG("#rust".to_string(), action.clone()));
    assert_eq!(line(&message, None).unwrap(), action);
    let message = from_bob(Command::NOTICE("#rust".to_string(), action.clone()));
    assert_eq!(line(&message, None).unwrap(), action);
    let message = from_bob(Command::PRIVMSG(
        "me".to_string(),
        "\u{1}VERSION\u{1}".to_string(),
    ));
    assert_eq!(line(&message, None).unwrap(), " ∙ bob ");
}

#[test]
fn reply_with_topic() {
    assert_eq!(
        reply(Numeric::RPL_TOPIC, &["me", "#rust", "Welcome"]).unwrap(),
        " ∙ topic is Welcome"
    );
    assert_eq!(reply(Numeric::RPL_TOPIC, &["me", "#rust"]), None);
}

#[test]
fn reply_with_time_of_topic() {
    assert_eq!(
        reply(
            Numeric::RPL_TOPICWHOTIME,
            &["me", "#rust", "bob", "1000000000"]
        )
        .unwrap(),
        " ∙ topic set by bob at Sun, 9 Sep 2001 01:46:40 +0000"
    );
    assert_eq!(
        reply(Numeric::RPL_TOPICWHOTIME, &["me", "#rust", "bob", "253402300799"]).unwrap(),
        " ∙ topic set by bob at Fri, 31 Dec 9999 23:59:59 +0000"
    );
    assert_eq!(
        reply(Numeric::RPL_TOPICWHOTIME, &["me", "#rust", "bob", "soon"]),
        None
    );
    assert_eq!(
        reply(Numeric::RPL_TOPICWHOTIME, &["me", "#rust", "bob"]),
        None
    );
    assert_eq!(
        reply(
            Numeric::RPL_TOPICWHOTIME,
            &["me", "#rust", "bob", "8210266876800"]
        ),
        None
    );
}

#[test]
fn years_of_five_digits_do_not_fit() {
    let late = |seconds: &str| {
        from_server(Command::Numeric(
            Numeric::RPL_TOPICWHOTIME,
            strings(&["me", "#rust", "bob", seconds]),
        ))
        .has_fitting_dates()
    };
    assert!(late("253402300799"));
    assert!(!late("253402300800"));
    assert!(!late("8210266876799"));
    assert!(late("8210266876800"));
    assert!(late("18446744073709551615"));
    assert!(late("never"));
}

#[test]
fn reply_with_idle_time() {
    assert_eq!(
        reply(
            Numeric::RPL_WHOISIDLE,
            &["me", "bob", "3725", "1000000000", "seconds idle, signon time"]
        )
        .unwrap(),
        " ∙ bob signed on at 2001-09-09 01:46:40 UTC and has been idle for 1 hour"
    );
    assert_eq!(
        reply(Numeric::RPL_WHOISIDLE, &["me", "bob", "0", "0"]).unwrap(),
        " ∙ bob signed on at 1970-01-01 00:00:00 UTC and has been idle for now"
    );
    assert_eq!(
        reply(Numeric::RPL_WHOISIDLE, &["me", "bob", "180", "8210266876799"]).unwrap(),
        " ∙ bob signed on at +262142-12-31 23:59:59 UTC and has been idle for 3 minutes"
    );
    assert_eq!(
        reply(Numeric::RPL_WHOISIDLE, &["me", "bob", "-1", "1000000000"]),
        None
    );
    assert_eq!(
        reply(Numeric::RPL_WHOISIDLE, &["me", "bob", "1", "8210266876800"]),
        None
    );
    assert_eq!(
        reply(
            Numeric::RPL_WHOISIDLE,
            &["me", "bob", "1", "18446744073709551615"]
        ),
        None
    );
    assert_eq!(reply(Numeric::RPL_WHOISIDLE, &["me", "bob", "1"]), None);
}

#[test]
fn replies_on_a_user() {
    assert_eq!(reply(Numeric::RPL_ENDOFWHOIS, &["me", "bob", "End"]), None);
    assert_eq!(
        reply(
            Numeric::RPL_WHOISSERVER,
            &["me", "bob", "irc.example.org", "Paris"]
        )
        .unwrap(),
        " ∙ bob is connected on irc.example.org (Paris)"
    );
    assert_eq!(
        reply(Numeric::RPL_WHOISSERVER, &["me", "bob", "irc.example.org"]),
        None
    );
    assert_eq!(
        reply(
            Numeric::RPL_WHOISUSER,
            &["me", "bob", "bobby", "example.org", "*", "Bob B."]
        )
        .unwrap(),
        " ∙ bob has userhost bobby@example.org and real name 'Bob B.'"
    );
    assert_eq!(
        reply(
            Numeric::RPL_WHOISUSER,
            &["me", "bob", "bobby", "example.org", "*"]
        ),
        None
    );
    assert_eq!(
        reply(Numeric::RPL_WHOISCHANNELS, &["me", "bob", "#rust @#verus"]).unwrap(),
        " ∙ bob is in #rust @#verus"
    );
    assert_eq!(
        reply(
            Numeric::RPL_WHOISACTUALLY,
            &["me", "bob", "10.0.0.1", "is actually using host"]
        )
        .unwrap(),
        " ∙ bob is actually using host 10.0.0.1"
    );
    assert_eq!(
        reply(
            Numeric::RPL_WHOISSECURE,
            &["me", "bob", "is using a secure connection"]
        )
        .unwrap(),
        " ∙ bob is using a secure connection"
    );
    assert_eq!(
        reply(
            Numeric::RPL_WHOISACCOUNT,
            &["me", "bob", "bobacc", "is logged in as"]
        )
        .unwrap(),
        " ∙ bob is logged in as bobacc"
    );
    assert_eq!(reply(Numeric::RPL_WHOISCHANNELS, &["me", "bob"]), None);
    assert_eq!(reply(Numeric::RPL_WHOISACTUALLY, &["me", "bob", "x"]), None);
    assert_eq!(reply(Numeric::RPL_WHOISSECURE, &["me", "bob"]), None);
    assert_eq!(reply(Numeric::RPL_WHOISACCOUNT, &["me", "bob", "x"]), None);
}

#[test]
fn replies_on_modes_and_absence() {
    assert_eq!(
        reply(Numeric::RPL_CHANNELMODEIS, &["me", "#rust", "+nt", "5"]).unwrap(),
        " ∙ Channel mode is +nt 5"
    );
    assert_eq!(
        reply(Numeric::RPL_CHANNELMODEIS, &["me"]).unwrap(),
        " ∙ Channel mode is "
    );
    assert_eq!(
        reply(Numeric::RPL_AWAY, &["me", "bob", "lunch"]).unwrap(),
        " ∙ bob is away (lunch)"
    );
    assert_eq!(
        reply(Numeric::RPL_AWAY, &["me", "bob"]).unwrap(),
        " ∙ bob is away"
    );
    assert_eq!(reply(Numeric::RPL_AWAY, &["me"]), None);
}

#[test]
fn other_replies_and_unknown_commands() {
    assert_eq!(
        reply(Numeric::Other(1), &["me", "Welcome", "to the network"]).unwrap(),
        "Welcome to the network"
    );
    assert_eq!(reply(Numeric::Other(1), &[]).unwrap(), "");
    let message = from_server(Command::Unknown(
        "FOO".to_string(),
        strings(&["me", "bar", "baz"]),
    ));
    assert_eq!(line(&message, None).unwrap(), "bar baz");
}

#[test]
fn commands_without_a_line() {
    assert_eq!(line(&from_bob(Command::PING("x".to_string())), None), None);
    assert_eq!(
        line(&from_bob(Command::NICK("robert".to_string())), None),
        None
    );
    assert_eq!(line(&from_server(Command::LUSERS), None), None);
}
