//! Searching, joining and reading numbers.
use vstd::prelude::*;

use crate::strings::after;
use crate::strings::chars_of;
use crate::strings::contains_text;
use crate::strings::decimal;
use crate::strings::digits_value;
use crate::strings::find;
use crate::strings::is_digit;
use crate::strings::join;
use crate::strings::joined_after;
use crate::strings::occurs;
use crate::strings::parse_decimal;
use crate::strings::position_of;
use crate::strings::same_text;
use crate::strings::stands_at;
use crate::strings::texts;
use crate::strings::unsigned;

verus! {

/// The position that is found is that of the character looked for, or the end,
/// and no position before it is.
pub proof fn law_find_is_first(s: Seq<char>, c: char)
    ensures
        find(s, c) <= s.len(),
        find(s, c) < s.len() ==> s[find(s, c) as int] == c,
        forall|i: int| 0 <= i < find(s, c) ==> #[trigger] s[i] != c,
        find(s, c) == s.len() <==> !s.contains(c),
    decreases s.len(),
{
    if s.len() > 0 && s[0] != c {
        let rest = s.drop_first();
        law_find_is_first(rest, c);
        assert forall|i: int| 0 <= i < find(s, c) implies #[trigger] s[i] != c by {
            if i > 0 {
                assert(s[i] == rest[i - 1]);
            }
        }
        if rest.contains(c) {
            let i = choose|i: int| 0 <= i < rest.len() && rest[i] == c;
            assert(s[i + 1] == c);
        }
    }
    if find(s, c) < s.len() {
        assert(s.contains(s[find(s, c) as int]));
    }
}

/// A character is looked for in the range that is named, and found where it first
/// stands there.
pub proof fn law_position_is_first_in_range(
    chars: &Vec<char>,
    c: char,
    start: usize,
    end: usize,
    position: usize,
)
    requires
        start <= end <= chars@.len(),
        call_ensures(position_of, (chars, c, start, end), position),
    ensures
        start <= position <= end,
        position < end ==> chars@[position as int] == c,
        forall|i: int| start <= i < position ==> #[trigger] chars@[i] != c,
{
    let range = chars@.subrange(start as int, end as int);
    law_find_is_first(range, c);
    assert forall|i: int| start <= i < position implies #[trigger] chars@[i] != c by {
        assert(range[i - start] == chars@[i]);
    }
}

/// The characters of a text are all of them, in order.
pub proof fn law_chars_make_the_text(s: &str, chars: Vec<char>)
    requires
        call_ensures(chars_of, (s,), chars),
    ensures
        chars@.len() == s@.len(),
        forall|i: int| 0 <= i < s@.len() ==> #[trigger] chars@[i] == s@[i],
{
}

/// Two texts are the same exactly if they have the same characters at the same
/// places.
pub proof fn law_same_texts_agree_everywhere(a: &str, b: &str, same: bool)
    requires
        call_ensures(same_text, (a, b), same),
    ensures
        same <==> (a@.len() == b@.len() && forall|i: int|
            0 <= i < a@.len() ==> #[trigger] a@[i] == b@[i]),
{
    if a@.len() == b@.len() && forall|i: int| 0 <= i < a@.len() ==> #[trigger] a@[i] == b@[i] {
        assert(a@ =~= b@);
    }
}

/// A text occurs in another exactly if that consists of some text, it, and some
/// more text.
pub proof fn law_occurs_is_between(needle: Seq<char>, s: Seq<char>)
    ensures
        occurs(needle, s) <==> exists|before: Seq<char>, behind: Seq<char>|
            s == #[trigger] (before + needle + behind),
{
    if occurs(needle, s) {
        let i = choose|i: int| stands_at(needle, s, i);
        let before = s.take(i);
        let behind = s.skip(i + needle.len());
        assert(s =~= before + s.subrange(i, i + needle.len()) + behind);
        assert(s == before + needle + behind);
    }
    if exists|before: Seq<char>, behind: Seq<char>| s == #[trigger] (before + needle + behind) {
        let (before, behind) = choose|before: Seq<char>, behind: Seq<char>|
            s == #[trigger] (before + needle + behind);
        let i: int = before.len() as int;
        assert(s.subrange(i, i + needle.len()) =~= needle);
        assert(stands_at(needle, s, i));
    }
}

/// That a text contains another is told exactly if it does.
pub proof fn law_contained_text_is_between(text: &str, needle: &str, found: bool)
    requires
        call_ensures(contains_text, (text, needle), found),
    ensures
        found <==> exists|before: Seq<char>, behind: Seq<char>|
            text@ == #[trigger] (before + needle@ + behind),
{
    law_occurs_is_between(needle@, text@);
}

/// Nothing joined is nothing, one text joined is that text, and a text before
/// others stands before them joined, with the separator between.
pub proof fn law_join_puts_separator_between(
    first: Seq<char>,
    rest: Seq<Seq<char>>,
    separator: Seq<char>,
)
    ensures
        join(seq![], separator) == Seq::<char>::empty(),
        join(seq![first], separator) == first,
        rest.len() > 0 ==> join(seq![first] + rest, separator) == first + separator + join(
            rest,
            separator,
        ),
    decreases rest.len(),
{
    let all = seq![first] + rest;
    if rest.len() == 1 {
        reveal_with_fuel(join, 2);
        assert(all.drop_last() =~= seq![first]);
        assert(all.last() == rest[0]);
    } else if rest.len() > 1 {
        law_join_puts_separator_between(first, rest.drop_last(), separator);
        assert(all.drop_last() =~= seq![first] + rest.drop_last());
        assert(all.last() == rest.last());
        assert(join(all, separator) =~= first + separator + join(rest, separator));
    }
}

/// What follows a number of elements is the list without them.
pub proof fn law_after_drops_from_the_front<T>(front: Seq<T>, rest: Seq<T>, n: nat)
    ensures
        after(front + rest, front.len()) == rest,
        n > rest.len() ==> after(rest, n) == Seq::<T>::empty(),
{
    assert((front + rest).skip(front.len() as int) =~= rest);
}

/// The texts of a list are those of its strings, each at its place.
pub proof fn law_texts_keep_places(list: Seq<String>)
    ensures
        texts(list).len() == list.len(),
        forall|i: int| 0 <= i < list.len() ==> #[trigger] texts(list)[i] == list[i]@,
{
}

/// Strings joined from a position on: nothing, where the list is over; the last
/// one as it is; and else the string there, a space, and those from the next
/// position on, joined.
pub proof fn law_joined_after_goes_on_with_the_next(
    list: &Vec<String>,
    start: usize,
    text: String,
    next: usize,
    next_text: String,
)
    requires
        call_ensures(joined_after, (list, start), text),
        call_ensures(joined_after, (list, next), next_text),
        next == start + 1,
    ensures
        start >= list@.len() ==> text@ == Seq::<char>::empty(),
        start + 1 == list@.len() ==> text@ == list@[start as int]@,
        start + 1 < list@.len() ==> text@ == list@[start as int]@ + seq![' '] + next_text@,
{
    let all = texts(list@);
    reveal_strlit(" ");
    assert(" "@ =~= seq![' ']);
    if start >= list@.len() {
        assert(after(all, start as nat) =~= seq![]);
        law_join_puts_separator_between(seq![], seq![], " "@);
    } else {
        let rest = after(all, next as nat);
        assert(after(all, start as nat) =~= seq![all[start as int]] + rest);
        law_join_puts_separator_between(all[start as int], rest, " "@);
        if rest.len() == 0 {
            assert(after(all, start as nat) =~= seq![all[start as int]]);
        }
    }
}

/// A number begins with a digit, before which a plus sign may stand; without a
/// digit there is none.
pub proof fn law_number_begins_with_a_digit(c: char)
    ensures
        decimal(seq![]) is None,
        decimal(seq!['+']) is None,
        decimal(seq![c]) == (if '0' <= c <= '9' {
            Some((c as u64 - '0' as u64) as u64)
        } else {
            None
        }),
        decimal(seq!['+', c]) == decimal(seq![c]),
{
    let one = seq![c];
    assert(unsigned(seq!['+']) =~= seq![]);
    assert(unsigned(seq!['+', c]) =~= one);
    assert(one.drop_last() =~= seq![]);
    reveal_with_fuel(digits_value, 2);
    assert(one[0] == c);
    if c == '+' {
        assert(unsigned(one) =~= seq![]);
    } else {
        assert(unsigned(one) == one);
    }
}

/// One more character makes a number ten times as large plus the digit that it is;
/// where it is no digit, or the number grows beyond 64 bits, there is none, and
/// there is none behind what is none.
pub proof fn law_number_grows_by_a_digit(s: Seq<char>, c: char)
    requires
        s.len() > 0,
        s != seq!['+'],
    ensures
        decimal(s.push(c)) == (match decimal(s) {
            Some(n) => if '0' <= c <= '9' && n * 10 + (c as int - '0' as int) <= u64::MAX {
                Some((n * 10 + (c as int - '0' as int)) as u64)
            } else {
                None
            },
            None => None,
        }),
{
    let digits = unsigned(s);
    let more = unsigned(s.push(c));
    assert(more =~= digits.push(c));
    assert(more.drop_last() =~= digits);
    assert(more.last() == c);
    if digits.len() == 0 {
        assert(s =~= seq!['+']);
    }
    if decimal(s) is Some {
        if is_digit(c) {
            assert forall|i: int| 0 <= i < more.len() implies is_digit(#[trigger] more[i]) by {
                if i < digits.len() {
                    assert(is_digit(digits[i]));
                }
            }
            assert(digits_value(more) == digits_value(digits) * 10 + (c as nat - '0' as nat));
        } else {
            assert(!is_digit(more[digits.len() as int]));
        }
    } else if decimal(s.push(c)) is Some {
        assert forall|i: int| 0 <= i < digits.len() implies is_digit(#[trigger] digits[i]) by {
            assert(is_digit(more[i]));
        }
        assert(is_digit(more[digits.len() as int]));
        assert(digits_value(more) == digits_value(digits) * 10 + (c as nat - '0' as nat));
    }
}

/// Reading a text for a number and then a longer one: the second number is the
/// first one with a digit more.
pub proof fn law_parsed_number_grows_by_a_digit(
    text: &str,
    number: Option<u64>,
    longer: &str,
    longer_number: Option<u64>,
    c: char,
)
    requires
        call_ensures(parse_decimal, (text,), number),
        call_ensures(parse_decimal, (longer,), longer_number),
        longer@ == text@.push(c),
    ensures
        number == decimal(text@),
        text@.len() > 0 && text@ != seq!['+'] ==> longer_number == (match number {
            Some(n) => if '0' <= c <= '9' && n * 10 + (c as int - '0' as int) <= u64::MAX {
                Some((n * 10 + (c as int - '0' as int)) as u64)
            } else {
                None
            },
            None => None,
        }),
{
    if text@.len() > 0 && text@ != seq!['+'] {
        law_number_grows_by_a_digit(text@, c);
    }
}

} // verus!
