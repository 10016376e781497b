use irc_message::config::UsernameFormat;
use irc_message::strings::{chars_of, contains_text, joined_after, parse_decimal};
use irc_message::time::{readable_duration, DateTime, Posix};
use irc_message::user::{AccessLevel, Nick, User};

#[test]
fn calendar_limits() {
    assert!(DateTime::from_timestamp(-8_334_601_228_800, 0).is_some());
    assert!(DateTime::from_timestamp(-8_334_601_228_801, 0).is_none());
    assert!(DateTime::from_timestamp(8_210_266_876_799, 999_999_999).is_some());
    assert!(DateTime::from_timestamp(8_210_266_876_800, 0).is_none());
    assert!(DateTime::from_timestamp(i64::MAX, 0).is_none());
    assert!(DateTime::from_timestamp(i64::MIN, 0).is_none());
    assert!(DateTime::from_timestamp(59, 1_999_999_999).is_some());
    assert!(DateTime::from_timestamp(-1, 1_000_000_000).is_some());
    assert!(DateTime::from_timestamp(59, 2_000_000_000).is_none());
    assert!(DateTime::from_timestamp(60, 1_000_000_000).is_none());
}

#[test]
fn calendar_limits_agree_with_chrono() {
    let min = chrono::DateTime::<chrono::Utc>::MIN_UTC;
    let max = chrono::DateTime::<chrono::Utc>::MAX_UTC;
    assert_eq!(min.timestamp(), irc_message::time::FIRST_SECOND);
    assert_eq!(max.timestamp(), irc_message::time::LAST_SECOND);
}

#[test]
fn moments_as_text() {
    let moment = DateTime::from_timestamp(1_000_000_000, 500_000_000).unwrap();
    assert_eq!(moment.display(), "2001-09-09 01:46:40.500 UTC");
    assert_eq!(moment.to_rfc2822(), "Sun, 9 Sep 2001 01:46:40 +0000");
    let first = DateTime::from_timestamp(-62_167_219_200, 0).unwrap();
    assert_eq!(first.to_rfc2822(), "Sat, 1 Jan 0000 00:00:00 +0000");
}

#[test]
fn moments_from_text() {
    let moment = DateTime::parse_from_rfc3339("1970-01-01T00:00:01Z").unwrap();
    assert_eq!(moment, DateTime::from_timestamp(1, 0).unwrap());
    let moment = DateTime::parse_from_rfc3339("0000-01-01T00:00:00+23:59").unwrap();
    assert_eq!(moment.timestamp(), -62_167_305_540);
    assert!(DateTime::parse_from_rfc3339("1970-13-01T00:00:01Z").is_none());
    assert!(DateTime::parse_from_rfc3339("").is_none());
}

#[test]
fn posix_times() {
    let time = Posix::from_seconds(1_000_000_000);
    assert_eq!(time.datetime().unwrap().timestamp(), 1_000_000_000);
    assert!(Posix::from_seconds(u64::MAX).datetime().is_none());
    assert!(Posix::from_seconds(8_210_266_876_800).datetime().is_none());
    assert!(Posix { seconds: 0, nanos: u32::MAX }.datetime().is_none());
    assert!(Posix::now().datetime().is_some());
    assert!(DateTime::now().timestamp() > 1_600_000_000);
}

#[test]
fn durations() {
    assert_eq!(readable_duration(0), "now");
    assert_eq!(readable_duration(1), "1 second");
    assert_eq!(readable_duration(59), "59 seconds");
    assert_eq!(readable_duration(86_400), "1 day");
    assert_eq!(readable_duration(u64::MAX).ends_with(" years"), true);
}

#[test]
fn numbers() {
    for text in ["0", "7", "007", "+5", "18446744073709551615", "00018446744073709551615"] {
        assert_eq!(parse_decimal(text), text.parse::<u64>().ok(), "{}", text);
        assert!(parse_decimal(text).is_some());
    }
    for text in [
        "", "+", "-", "-1", "-0", "++1", "1 ", " 1", "1a", "٣", "18446744073709551616",
        "99999999999999999999999", "1_000",
    ] {
        assert_eq!(text.parse::<u64>().ok(), None);
        assert_eq!(parse_decimal(text), None, "{}", text);
    }
}

#[test]
fn searching_and_joining() {
    assert!(contains_text("abc", ""));
    assert!(contains_text("abc", "bc"));
    assert!(contains_text("abcabd", "abd"));
    assert!(!contains_text("abc", "cb"));
    assert!(!contains_text("", "a"));
    assert_eq!(chars_of("a∙b"), vec!['a', '∙', 'b']);
    let list: Vec<String> = vec!["a".to_string(), String::new(), "c".to_string()];
    assert_eq!(joined_after(&list, 0), "a  c");
    assert_eq!(joined_after(&list, 2), "c");
    assert_eq!(joined_after(&list, 3), "");
    assert_eq!(joined_after(&list, 4), "");
}

#[test]
fn users_from_text() {
    let user = User::parse("bob").unwrap();
    assert_eq!(user.nickname, Nick::new("bob"));
    assert_eq!((user.username, user.hostname), (None, None));
    assert_eq!(user.access_level, AccessLevel::Member);

    let user = User::parse("@bob!bobby@example.org").unwrap();
    assert_eq!(user.nickname, Nick::new("bob"));
    assert_eq!(user.username.as_deref(), Some("bobby"));
    assert_eq!(user.hostname.as_deref(), Some("example.org"));
    assert_eq!(user.access_level, AccessLevel::Oper);

    let user = User::parse("bob@host!x").unwrap();
    assert_eq!(user.nickname, Nick::new("bob"));
    assert_eq!(user.username, None);
    assert_eq!(user.hostname.as_deref(), Some("host!x"));

    assert!(User::parse("").is_none());
    assert!(User::parse("@").is_none());
    assert!(User::parse("!user@host").is_none());
}

#[test]
fn users_as_text() {
    let mut user = User::parse("~bob!bobby@example.org").unwrap();
    assert_eq!(user.display(), "~bob");
    assert_eq!(user.formatted(UsernameFormat::Short), "~bob");
    assert_eq!(
        user.formatted(UsernameFormat::Full),
        "~bob (bobby@example.org)"
    );
    user.hostname = None;
    assert_eq!(user.formatted(UsernameFormat::Full), "~bob (bobby)");
    user.username = None;
    assert_eq!(user.formatted(UsernameFormat::Full), "~bob");
    user.hostname = Some("example.org".to_string());
    assert_eq!(user.formatted(UsernameFormat::Full), "~bob (example.org)");
    for (symbol, level) in [
        ("~", AccessLevel::Owner),
        ("&", AccessLevel::Admin),
        ("@", AccessLevel::Oper),
        ("%", AccessLevel::HalfOp),
        ("+", AccessLevel::Voice),
        ("", AccessLevel::Member),
    ] {
        assert_eq!(level.symbol(), symbol);
        let text = format!("{symbol}bob");
        let user = User::parse(&text).unwrap();
        assert_eq!(user.access_level, level);
        assert_eq!(user.display(), text);
    }
}

#[test]
fn displayed_users_are_read_back() {
    let user = User::parse("%bob").unwrap();
    let again = User::parse(&user.display()).unwrap();
    assert_eq!(again, user);
}
