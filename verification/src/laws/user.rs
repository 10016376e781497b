//! Users, and the names they go by.
use vstd::prelude::*;

use super::strings::law_find_is_first;
use crate::config::UsernameFormat;
use crate::proto;
use crate::strings::find;
use crate::user::AccessLevel;
use crate::user::Nick;
use crate::user::NickRef;
use crate::user::User;
use crate::user::UserView;

verus! {

/// Six characters stand for the levels, each for one, and no other character does.
pub proof fn law_symbols_stand_for_levels(c: char, level: AccessLevel, symbol: &str)
    requires
        call_ensures(AccessLevel::from_symbol, (c,), level),
        call_ensures(AccessLevel::symbol, (&level,), symbol),
    ensures
        AccessLevel::of_symbol(c) == level,
        level.symbol_text() == symbol@,
        c == '~' <==> level is Owner,
        c == '&' <==> level is Admin,
        c == '@' <==> level is Oper,
        c == '%' <==> level is HalfOp,
        c == '+' <==> level is Voice,
        symbol@ == (if level is Member {
            seq![]
        } else {
            seq![c]
        }),
{
    reveal_strlit("");
    reveal_strlit("+");
    reveal_strlit("%");
    reveal_strlit("@");
    reveal_strlit("&");
    reveal_strlit("~");
    assert(level is Member ==> symbol@ =~= seq![]);
    assert(!(level is Member) ==> symbol@ =~= seq![c]);
}

/// A nickname is the text it was made from, also lent out and taken back.
pub proof fn law_nick_keeps_its_name(
    name: &str,
    nick: Nick,
    text: &str,
    lent: NickRef,
    lent_text: &str,
    again: Nick,
)
    requires
        call_ensures(Nick::new, (name,), nick),
        call_ensures(Nick::as_str, (&nick,), text),
        call_ensures(Nick::as_nick_ref, (&nick,), lent),
        call_ensures(NickRef::as_str, (&lent,), lent_text),
        call_ensures(NickRef::to_owned, (&lent,), again),
    ensures
        nick.name@ == name@,
        nick@ == name@,
        text@ == name@,
        lent.name@ == name@,
        lent@ == name@,
        lent_text@ == name@,
        again.name@ == name@,
{
}

/// What is known of a user is what the user's fields hold.
pub proof fn law_user_is_its_fields(user: User, nick: NickRef)
    requires
        call_ensures(User::nickname, (&user,), nick),
    ensures
        nick.name@ == user.nickname.name@,
        user@.nickname == user.nickname.name@,
        user@.username is Some <==> user.username is Some,
        user.username matches Some(username) ==> user@.username == Some(username@),
        user@.hostname is Some <==> user.hostname is Some,
        user.hostname matches Some(hostname) ==> user@.hostname == Some(hostname@),
        user@.access_level == user.access_level,
{
}

/// The source of a message names a user with all that it says of the user, and with
/// no standing in a channel.
pub proof fn law_source_names_the_user(raw: proto::User, user: User)
    requires
        call_ensures(User::from_proto, (raw,), user),
    ensures
        user@ == UserView::from_proto(raw),
        user.nickname.name@ == raw.nickname@,
        user.username is Some <==> raw.username is Some,
        raw.username matches Some(username) ==> (user.username->0)@ == username@,
        user.hostname is Some <==> raw.hostname is Some,
        raw.hostname matches Some(hostname) ==> (user.hostname->0)@ == hostname@,
        user.access_level is Member,
{
    law_from_proto_keeps_fields(raw);
    let known = user@;
    assert(known.nickname == user.nickname.name@);
    assert(user.username matches Some(username) ==> known.username == Some(username@));
    assert(user.hostname matches Some(hostname) ==> known.hostname == Some(hostname@));
}

/// What is known of a user from the source of a message is what that says.
pub proof fn law_from_proto_keeps_fields(raw: proto::User)
    ensures
        UserView::from_proto(raw).nickname == raw.nickname@,
        UserView::from_proto(raw).username is Some <==> raw.username is Some,
        raw.username matches Some(username) ==> UserView::from_proto(raw).username == Some(
            username@,
        ),
        UserView::from_proto(raw).hostname is Some <==> raw.hostname is Some,
        raw.hostname matches Some(hostname) ==> UserView::from_proto(raw).hostname == Some(
            hostname@,
        ),
        UserView::from_proto(raw).access_level is Member,
{
}

/// A user is displayed by the nickname, behind the symbol of the access level.
pub proof fn law_display_is_symbol_and_nickname(user: &User, symbol: &str, text: String)
    requires
        call_ensures(AccessLevel::symbol, (&user.access_level,), symbol),
        call_ensures(User::display, (user,), text),
    ensures
        text@ == symbol@ + user.nickname.name@,
        text@ == user@.display_text(),
{
}

/// In full, a user is displayed as in short, and behind that in brackets stands what
/// is known of username and host, with an `@` between if it is both.
pub proof fn law_full_format_adds_the_account(user: &User, display: String, short: String, full: String)
    requires
        call_ensures(User::display, (user,), display),
        call_ensures(User::formatted, (user, UsernameFormat::Short), short),
        call_ensures(User::formatted, (user, UsernameFormat::Full), full),
    ensures
        short@ == user@.formatted_text(UsernameFormat::Short),
        full@ == user@.formatted_text(UsernameFormat::Full),
        short@ == display@,
        full@ == short@ + (match (user.username, user.hostname) {
            (Some(username), Some(hostname)) => seq![' ', '('] + username@ + seq!['@'] + hostname@
                + seq![')'],
            (Some(known), None) | (None, Some(known)) => seq![' ', '('] + known@ + seq![')'],
            (None, None) => seq![],
        }),
{
    reveal_strlit("");
    reveal_strlit(" (");
    reveal_strlit("@");
    reveal_strlit(")");
    assert(" ("@ =~= seq![' ', '(']);
    assert("@"@ =~= seq!['@']);
    assert(")"@ =~= seq![')']);
    assert(""@ =~= seq![]);
    law_formatted_text(user@);
}

/// The same of what is known of a user.
pub proof fn law_formatted_text(user: UserView)
    ensures
        user.formatted_text(UsernameFormat::Short) == user.access_level.symbol_text()
            + user.nickname,
        user.formatted_text(UsernameFormat::Full) == user.access_level.symbol_text()
            + user.nickname + (match (user.username, user.hostname) {
            (Some(username), Some(hostname)) => " ("@ + username + "@"@ + hostname + ")"@,
            (Some(known), None) | (None, Some(known)) => " ("@ + known + ")"@,
            (None, None) => ""@,
        }),
        user.display_text() == user.access_level.symbol_text() + user.nickname,
{
}

/// A text that names a user is put together from what is read of it: the symbol of
/// the access level, the nickname, the username behind a `!` and the host behind an
/// `@`. The nickname is not empty and holds neither separator, the username holds
/// no `@`, and a nickname without a symbol does not begin with one.
pub proof fn law_user_is_what_its_text_says(text: Seq<char>)
    ensures
        UserView::parse(text) matches Some(user) ==> {
            &&& text == user.access_level.symbol_text() + user.nickname + (match user.username {
                Some(username) => seq!['!'] + username,
                None => seq![],
            }) + (match user.hostname {
                Some(hostname) => seq!['@'] + hostname,
                None => seq![],
            })
            &&& user.nickname.len() > 0
            &&& !user.nickname.contains('!')
            &&& !user.nickname.contains('@')
            &&& user.username matches Some(username) ==> !username.contains('@')
            &&& user.access_level is Member ==> !begins_with_symbol(user.nickname)
        },
{
    if let Some(user) = UserView::parse(text) {
        let symbol = user.access_level.symbol_text();
        let mask = if user.access_level is Member {
            text
        } else {
            text.skip(1)
        };
        lemma_symbol_and_mask(text);
        lemma_mask_parts(mask);
        lemma_account_parts(mask.take(find(mask, '@') as int));
        let account = mask.take(find(mask, '@') as int);
        let username_part = match user.username {
            Some(username) => seq!['!'] + username,
            None => seq![],
        };
        let hostname_part = match user.hostname {
            Some(hostname) => seq!['@'] + hostname,
            None => seq![],
        };
        assert(account == user.nickname + username_part);
        assert(mask == account + hostname_part);
        assert(symbol + (user.nickname + username_part + hostname_part) =~= symbol + user.nickname
            + username_part + hostname_part);
        if user.access_level is Member {
            assert(user.nickname[0] == text[0]);
        }
    }
}

/// A text is its symbol, if it has one, and what follows.
proof fn lemma_symbol_and_mask(text: Seq<char>)
    requires
        text.len() > 0,
    ensures
        ({
            let level = AccessLevel::of_symbol(text[0]);
            text == level.symbol_text() + (if level is Member {
                text
            } else {
                text.skip(1)
            })
        }),
{
    reveal_strlit("");
    reveal_strlit("+");
    reveal_strlit("%");
    reveal_strlit("@");
    reveal_strlit("&");
    reveal_strlit("~");
    let level = AccessLevel::of_symbol(text[0]);
    if level is Member {
        assert(text =~= level.symbol_text() + text);
    } else {
        assert(text =~= level.symbol_text() + text.skip(1));
    }
}

/// A mask is what stands before its first `@`, and that with what follows.
proof fn lemma_mask_parts(mask: Seq<char>)
    ensures
        ({
            let at = find(mask, '@') as int;
            &&& 0 <= at <= mask.len()
            &&& !mask.take(at).contains('@')
            &&& mask == mask.take(at) + (if at < mask.len() {
                seq!['@'] + mask.skip(at + 1)
            } else {
                seq![]
            })
        }),
{
    let at = find(mask, '@') as int;
    law_find_is_first(mask, '@');
    if mask.take(at).contains('@') {
        let i = choose|i: int| 0 <= i < at && mask.take(at)[i] == '@';
        assert(mask[i] == '@');
    }
    if at < mask.len() {
        assert(mask =~= mask.take(at) + (seq!['@'] + mask.skip(at + 1)));
    } else {
        assert(mask =~= mask.take(at) + seq![]);
    }
}

/// An account is what stands before its first `!`, and that with what follows.
proof fn lemma_account_parts(account: Seq<char>)
    requires
        !account.contains('@'),
    ensures
        ({
            let bang = find(account, '!') as int;
            &&& 0 <= bang <= account.len()
            &&& !account.take(bang).contains('!')
            &&& !account.take(bang).contains('@')
            &&& bang < account.len() ==> !account.skip(bang + 1).contains('@')
            &&& account == account.take(bang) + (if bang < account.len() {
                seq!['!'] + account.skip(bang + 1)
            } else {
                seq![]
            })
        }),
{
    let bang = find(account, '!') as int;
    law_find_is_first(account, '!');
    let nickname = account.take(bang);
    if nickname.contains('!') {
        let i = choose|i: int| 0 <= i < bang && nickname[i] == '!';
        assert(account[i] == '!');
    }
    if nickname.contains('@') {
        let i = choose|i: int| 0 <= i < bang && nickname[i] == '@';
        assert(account[i] == '@');
    }
    if bang < account.len() {
        let username = account.skip(bang + 1);
        if username.contains('@') {
            let i = choose|i: int| 0 <= i < username.len() && username[i] == '@';
            assert(account[bang + 1 + i] == '@');
        }
        assert(account =~= nickname + (seq!['!'] + username));
    } else {
        assert(account =~= nickname + seq![]);
    }
}

/// The first character of `name` stands for an access level.
pub open spec fn begins_with_symbol(name: Seq<char>) -> bool {
    name.len() > 0 && seq!['~', '&', '@', '%', '+'].contains(name[0])
}

/// A text names a user unless there is no nickname in it: unless, a symbol left
/// aside, it is empty or begins with a separator.
pub proof fn law_no_user_without_nickname(text: Seq<char>)
    ensures
        UserView::parse(text) is None <==> {
            let mask = if begins_with_symbol(text) {
                text.skip(1)
            } else {
                text
            };
            mask.len() == 0 || mask[0] == '!' || mask[0] == '@'
        },
{
    let symbols = seq!['~', '&', '@', '%', '+'];
    assert(symbols[0] == '~' && symbols[1] == '&' && symbols[2] == '@' && symbols[3] == '%'
        && symbols[4] == '+');
    let mask = if begins_with_symbol(text) {
        text.skip(1)
    } else {
        text
    };
    let at = find(mask, '@') as int;
    let account = mask.take(at);
    law_find_is_first(mask, '@');
    law_find_is_first(account, '!');
    if account.len() > 0 {
        assert(account[0] == mask[0]);
    }
}

/// What is read from a text as a user is that user, field by field.
pub proof fn law_parsed_user_is_what_its_text_says(text: &str, user: Option<User>)
    requires
        call_ensures(User::parse, (text,), user),
    ensures
        user is Some <==> UserView::parse(text@) is Some,
        user matches Some(user) ==> UserView::parse(text@) == Some(user@),
{
}

/// Two nicknames are equal exactly if their names are.
pub proof fn law_equal_nicks_have_equal_names(a: &Nick, b: &Nick, same: bool)
    requires
        call_ensures(<Nick as PartialEq>::eq, (a, b), same),
    ensures
        same <==> a.name@ == b.name@,
{
}

} // verus!
