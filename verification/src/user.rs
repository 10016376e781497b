//! Users of a server, the names they go by, and their standing in a channel.
use vstd::prelude::*;
use vstd::std_specs::cmp::PartialEqSpecImpl;

use crate::config::UsernameFormat;
use crate::proto;
use crate::strings::chars_of;
use crate::strings::find;
use crate::strings::position_of;

verus! {

/// A nickname. Two are the same exactly if their characters are.
#[derive(Debug, Eq)]
pub struct Nick {
    pub name: String,
}

impl View for Nick {
    type V = Seq<char>;

    open spec fn view(&self) -> Seq<char> {
        self.name@
    }
}

impl Nick {
    pub fn new(name: &str) -> (nick: Nick)
        ensures
            nick@ == name@,
    {
        Nick { name: name.to_owned() }
    }

    pub fn as_nick_ref(&self) -> (nick: NickRef<'_>)
        ensures
            nick@ == self@,
    {
        NickRef { name: self.name.as_str() }
    }

    pub fn as_str(&self) -> (name: &str)
        ensures
            name@ == self@,
    {
        self.name.as_str()
    }
}

impl Clone for Nick {
    fn clone(&self) -> (nick: Nick)
        ensures
            nick@ == self@,
    {
        Nick { name: self.name.clone() }
    }
}

impl PartialEq for Nick {
    fn eq(&self, other: &Nick) -> (same: bool) {
        self.name == other.name
    }
}

impl PartialEqSpecImpl for Nick {
    open spec fn obeys_eq_spec() -> bool {
        true
    }

    open spec fn eq_spec(&self, other: &Nick) -> bool {
        self@ == other@
    }
}

/// A nickname that belongs to someone else.
#[derive(Debug, Clone, Copy, Eq)]
pub struct NickRef<'a> {
    pub name: &'a str,
}

impl<'a> View for NickRef<'a> {
    type V = Seq<char>;

    open spec fn view(&self) -> Seq<char> {
        self.name@
    }
}

impl<'a> PartialEq for NickRef<'a> {
    fn eq(&self, other: &NickRef<'a>) -> (same: bool) {
        self.name.to_owned() == other.name.to_owned()
    }
}

impl<'a> PartialEqSpecImpl for NickRef<'a> {
    open spec fn obeys_eq_spec() -> bool {
        true
    }

    open spec fn eq_spec(&self, other: &NickRef<'a>) -> bool {
        self@ == other@
    }
}

impl<'a> NickRef<'a> {
    pub fn to_owned(&self) -> (nick: Nick)
        ensures
            nick@ == self@,
    {
        Nick { name: self.name.to_owned() }
    }

    pub fn as_str(&self) -> (name: &'a str)
        ensures
            name@ == self@,
    {
        self.name
    }
}

/// What a user may do in a channel, from the least to the most.
#[derive(Debug, Clone, Copy, PartialEq, Eq, Structural)]
pub enum AccessLevel {
    Member,
    Voice,
    HalfOp,
    Oper,
    Admin,
    Owner,
}

impl AccessLevel {
    /// The character before the name of a user of this level, if any.
    pub open spec fn symbol_text(self) -> Seq<char> {
        match self {
            AccessLevel::Member => ""@,
            AccessLevel::Voice => "+"@,
            AccessLevel::HalfOp => "%"@,
            AccessLevel::Oper => "@"@,
            AccessLevel::Admin => "&"@,
            AccessLevel::Owner => "~"@,
        }
    }

    /// The level that a character before a name stands for.
    pub open spec fn of_symbol(c: char) -> AccessLevel {
        if c == '~' {
            AccessLevel::Owner
        } else if c == '&' {
            AccessLevel::Admin
        } else if c == '@' {
            AccessLevel::Oper
        } else if c == '%' {
            AccessLevel::HalfOp
        } else if c == '+' {
            AccessLevel::Voice
        } else {
            AccessLevel::Member
        }
    }

    pub fn symbol(&self) -> (symbol: &'static str)
        ensures
            symbol@ == self.symbol_text(),
    {
        match self {
            AccessLevel::Member => "",
            AccessLevel::Voice => "+",
            AccessLevel::HalfOp => "%",
            AccessLevel::Oper => "@",
            AccessLevel::Admin => "&",
            AccessLevel::Owner => "~",
        }
    }

    pub fn from_symbol(c: char) -> (level: AccessLevel)
        ensures
            level == AccessLevel::of_symbol(c),
    {
        if c == '~' {
            AccessLevel::Owner
        } else if c == '&' {
            AccessLevel::Admin
        } else if c == '@' {
            AccessLevel::Oper
        } else if c == '%' {
            AccessLevel::HalfOp
        } else if c == '+' {
            AccessLevel::Voice
        } else {
            AccessLevel::Member
        }
    }
}

/// A user, by the characters of its names.
pub struct UserView {
    pub nickname: Seq<char>,
    pub username: Option<Seq<char>>,
    pub hostname: Option<Seq<char>>,
    pub access_level: AccessLevel,
}

/// The characters of a string that may be missing.
pub open spec fn text_of(text: Option<String>) -> Option<Seq<char>> {
    match text {
        Some(text) => Some(text@),
        None => None,
    }
}

impl UserView {
    /// A user that a message names as its source: nothing is known of its
    /// standing in a channel.
    pub open spec fn from_proto(user: proto::User) -> UserView {
        UserView {
            nickname: user.nickname@,
            username: text_of(user.username),
            hostname: text_of(user.hostname),
            access_level: AccessLevel::Member,
        }
    }

    /// The user that `nickname!username@hostname` names, the last two of which
    /// may be missing, behind the character for an access level, if any. The
    /// host is what follows the first `@` of the name; the username is what
    /// stands between the first `!` and that. There is no user without a
    /// nickname.
    pub open spec fn parse(text: Seq<char>) -> Option<UserView> {
        let access_level = if text.len() > 0 {
            AccessLevel::of_symbol(text[0])
        } else {
            AccessLevel::Member
        };
        let mask = if access_level is Member {
            text
        } else {
            text.skip(1)
        };
        let at = find(mask, '@') as int;
        let account = mask.take(at);
        let bang = find(account, '!') as int;
        if bang == 0 {
            None
        } else {
            Some(
                UserView {
                    nickname: account.take(bang),
                    username: if bang < account.len() {
                        Some(account.skip(bang + 1))
                    } else {
                        None
                    },
                    hostname: if at < mask.len() {
                        Some(mask.skip(at + 1))
                    } else {
                        None
                    },
                    access_level,
                },
            )
        }
    }

    /// The nickname, behind the character for the access level, if any.
    pub open spec fn display_text(self) -> Seq<char> {
        self.access_level.symbol_text() + self.nickname
    }

    /// What is known of username and host, in brackets.
    pub open spec fn account_text(self) -> Seq<char> {
        match (self.username, self.hostname) {
            (Some(username), Some(hostname)) => " ("@ + username + "@"@ + hostname + ")"@,
            (Some(username), None) => " ("@ + username + ")"@,
            (None, Some(hostname)) => " ("@ + hostname + ")"@,
            (None, None) => ""@,
        }
    }

    pub open spec fn formatted_text(self, format: UsernameFormat) -> Seq<char> {
        match format {
            UsernameFormat::Short => self.display_text(),
            UsernameFormat::Full => self.display_text() + self.account_text(),
        }
    }
}

/// A user, with its standing in the channel where it was met.
#[derive(Debug, PartialEq, Eq)]
pub struct User {
    pub nickname: Nick,
    pub username: Option<String>,
    pub hostname: Option<String>,
    pub access_level: AccessLevel,
}

impl View for User {
    type V = UserView;

    open spec fn view(&self) -> UserView {
        UserView {
            nickname: self.nickname@,
            username: text_of(self.username),
            hostname: text_of(self.hostname),
            access_level: self.access_level,
        }
    }
}

impl Clone for User {
    fn clone(&self) -> (user: User)
        ensures
            user@ == self@,
    {
        User {
            nickname: self.nickname.clone(),
            username: match &self.username {
                Some(username) => Some(username.clone()),
                None => None,
            },
            hostname: match &self.hostname {
                Some(hostname) => Some(hostname.clone()),
                None => None,
            },
            access_level: self.access_level,
        }
    }
}

impl User {
    /// The user that a message names as its source.
    pub fn from_proto(user: proto::User) -> (result: User)
        ensures
            result@ == UserView::from_proto(user),
    {
        User {
            nickname: Nick { name: user.nickname },
            username: user.username,
            hostname: user.hostname,
            access_level: AccessLevel::Member,
        }
    }

    /// The user that `nickname!username@hostname` names, if there is one.
    pub fn parse(text: &str) -> (user: Option<User>)
        ensures
            user is Some == UserView::parse(text@) is Some,
            user matches Some(user) ==> UserView::parse(text@) == Some(user@),
    {
        let chars = chars_of(text);
        let access_level = if chars.len() > 0 {
            AccessLevel::from_symbol(chars[0])
        } else {
            AccessLevel::Member
        };
        let start: usize = if access_level == AccessLevel::Member { 0 } else { 1 };
        let end: usize = chars.len();
        let ghost mask = text@.subrange(start as int, end as int);
        assert(start == 0 ==> mask =~= text@);
        assert(start == 1 ==> mask =~= text@.skip(1));
        let at = position_of(&chars, '@', start, end);
        let ghost account = mask.take(at - start);
        assert(account =~= text@.subrange(start as int, at as int));
        let bang = position_of(&chars, '!', start, at);
        if bang == start {
            return None;
        }
        let nickname = text.substring_char(start, bang);
        assert(nickname@ =~= account.take(bang - start));
        let username = if bang < at {
            let username = text.substring_char(bang + 1, at);
            assert(username@ =~= account.skip(bang - start + 1));
            Some(username.to_owned())
        } else {
            None
        };
        let hostname = if at < end {
            let hostname = text.substring_char(at + 1, end);
            assert(hostname@ =~= mask.skip(at - start + 1));
            Some(hostname.to_owned())
        } else {
            None
        };
        Some(User { nickname: Nick::new(nickname), username, hostname, access_level })
    }

    pub fn nickname(&self) -> (nick: NickRef<'_>)
        ensures
            nick@ == self@.nickname,
    {
        self.nickname.as_nick_ref()
    }

    /// The nickname, behind the character for the access level, if any.
    pub fn display(&self) -> (text: String)
        ensures
            text@ == self@.display_text(),
    {
        let mut text = self.access_level.symbol().to_owned();
        text.append(self.nickname.as_str());
        text
    }

    /// The user as a server message names it.
    pub fn formatted(&self, format: UsernameFormat) -> (text: String)
        ensures
            text@ == self@.formatted_text(format),
    {
        let mut text = self.display();
        match format {
            UsernameFormat::Short => text,
            UsernameFormat::Full => {
                let ghost name = text@;
                match (&self.username, &self.hostname) {
                    (Some(username), Some(hostname)) => {
                        text.append(" (");
                        text.append(username.as_str());
                        text.append("@");
                        text.append(hostname.as_str());
                        text.append(")");
                    },
                    (Some(username), None) => {
                        text.append(" (");
                        text.append(username.as_str());
                        text.append(")");
                    },
                    (None, Some(hostname)) => {
                        text.append(" (");
                        text.append(hostname.as_str());
                        text.append(")");
                    },
                    (None, None) => {
                        proof {
                            reveal_strlit("");
                        }
                    },
                }
                assert(text@ =~= name + self@.account_text());
                text
            },
        }
    }
}

/// `name` reads as a nickname and as nothing else: it holds no character that
/// ends a nickname, and none before it that stands for an access level.
pub open spec fn is_plain(name: Seq<char>) -> bool {
    &&& name.len() > 0
    &&& AccessLevel::of_symbol(name[0]) is Member
    &&& !name.contains('!')
    &&& !name.contains('@')
}

/// What stands before the first `c` in a text holds none, so it has the length
/// that `find` gives.
pub proof fn lemma_find_skips(before: Seq<char>, c: char, rest: Seq<char>)
    requires
        !before.contains(c),
    ensures
        find(before, c) == before.len(),
        find(before + seq![c] + rest, c) == before.len(),
    decreases before.len(),
{
    let whole = before + seq![c] + rest;
    if before.len() > 0 {
        let tail = before.drop_first();
        assert(before[0] != c);
        assert(!tail.contains(c)) by {
            if tail.contains(c) {
                let i = choose|i: int| 0 <= i < tail.len() && tail[i] == c;
                assert(before[i + 1] == c);
            }
        }
        lemma_find_skips(tail, c, rest);
        assert(whole.drop_first() =~= tail + seq![c] + rest);
        assert(whole[0] == before[0]);
    } else {
        assert(whole[0] == c);
    }
}

/// A plain nickname names the user who goes by it.
pub proof fn law_plain_name_names_itself(name: Seq<char>)
    requires
        is_plain(name),
    ensures
        UserView::parse(name) == Some(
            UserView {
                nickname: name,
                username: None,
                hostname: None,
                access_level: AccessLevel::Member,
            },
        ),
{
    lemma_find_skips(name, '@', seq![]);
    lemma_find_skips(name, '!', seq![]);
    assert(name.take(name.len() as int) =~= name);
}

/// Nickname, username and host, put together with the separators between them,
/// are read apart again.
pub proof fn law_mask_is_read_apart(name: Seq<char>, username: Seq<char>, hostname: Seq<char>)
    requires
        is_plain(name),
        !username.contains('@'),
    ensures
        UserView::parse(name + seq!['!'] + username + seq!['@'] + hostname) == Some(
            UserView {
                nickname: name,
                username: Some(username),
                hostname: Some(hostname),
                access_level: AccessLevel::Member,
            },
        ),
{
    let account = name + seq!['!'] + username;
    let mask = account + seq!['@'] + hostname;
    assert(!account.contains('@')) by {
        if account.contains('@') {
            let i = choose|i: int| 0 <= i < account.len() && account[i] == '@';
            if i < name.len() {
                assert(name[i] == '@');
            } else if i > name.len() {
                assert(username[i - name.len() - 1] == '@');
            }
        }
    }
    lemma_find_skips(account, '@', hostname);
    lemma_find_skips(name, '!', username);
    assert(mask[0] == name[0]);
    assert(mask.take(account.len() as int) =~= account);
    assert(account.take(name.len() as int) =~= name);
    assert(account.skip(name.len() as int + 1) =~= username);
    assert(mask.skip(account.len() as int + 1) =~= hostname);
}

/// A user who goes by a plain nickname is told from the text that displays it,
/// by name and by access level.
pub proof fn law_displayed_user_is_read_back(user: UserView)
    requires
        is_plain(user.nickname),
    ensures
        UserView::parse(user.display_text()) == Some(
            UserView { username: None, hostname: None, ..user },
        ),
{
    let text = user.display_text();
    let symbol = user.access_level.symbol_text();
    reveal_strlit("");
    reveal_strlit("+");
    reveal_strlit("%");
    reveal_strlit("@");
    reveal_strlit("&");
    reveal_strlit("~");
    law_plain_name_names_itself(user.nickname);
    if user.access_level is Member {
        assert(text =~= user.nickname);
    } else {
        assert(text[0] == symbol[0]);
        assert(text.skip(1) =~= user.nickname);
    }
}

} // verus!
