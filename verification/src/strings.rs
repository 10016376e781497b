//! Text: searching, splitting, joining and reading numbers, over the sequence
//! of characters that a string stands for.
use vstd::prelude::*;

verus! {

/// The position of the first `c` in `s`, or the length of `s` where there is none.
pub open spec fn find(s: Seq<char>, c: char) -> nat
    decreases s.len(),
{
    if s.len() == 0 || s[0] == c {
        0
    } else {
        1 + find(s.drop_first(), c)
    }
}

/// `needle` stands somewhere in `s`, its characters side by side.
pub open spec fn occurs(needle: Seq<char>, s: Seq<char>) -> bool {
    exists|i: int| #[trigger] stands_at(needle, s, i)
}

/// `needle` stands in `s` from position `i` on.
pub open spec fn stands_at(needle: Seq<char>, s: Seq<char>, i: int) -> bool {
    &&& 0 <= i <= s.len() - needle.len()
    &&& s.subrange(i, i + needle.len()) == needle
}

/// The elements of `list` in order, with `separator` between each two of them.
pub open spec fn join(list: Seq<Seq<char>>, separator: Seq<char>) -> Seq<char>
    decreases list.len(),
{
    if list.len() == 0 {
        seq![]
    } else if list.len() == 1 {
        list[0]
    } else {
        join(list.drop_last(), separator) + separator + list.last()
    }
}

/// What follows the first `n` elements of `list`: nothing where there are fewer.
pub open spec fn after<T>(list: Seq<T>, n: nat) -> Seq<T> {
    if n <= list.len() {
        list.skip(n as int)
    } else {
        seq![]
    }
}

/// The characters of each string of `list`.
pub open spec fn texts(list: Seq<String>) -> Seq<Seq<char>> {
    list.map_values(|s: String| s@)
}

pub open spec fn is_digit(c: char) -> bool {
    '0' <= c <= '9'
}

/// The number that a run of digits writes in base ten.
pub open spec fn digits_value(digits: Seq<char>) -> nat
    decreases digits.len(),
{
    if digits.len() == 0 {
        0
    } else {
        digits_value(digits.drop_last()) * 10 + (digits.last() as nat - '0' as nat) as nat
    }
}

/// The digits of a number written with or without a plus sign before them.
pub open spec fn unsigned(s: Seq<char>) -> Seq<char> {
    if s.len() > 0 && s[0] == '+' {
        s.skip(1)
    } else {
        s
    }
}

/// The number that `s` writes: one or more digits, after at most one plus sign,
/// and a value that 64 bits hold. Anything else writes no number.
pub open spec fn decimal(s: Seq<char>) -> Option<u64> {
    let digits = unsigned(s);
    if digits.len() > 0 && (forall|i: int|
        0 <= i < digits.len() ==> is_digit(#[trigger] digits[i])) && digits_value(digits)
        <= u64::MAX {
        Some(digits_value(digits) as u64)
    } else {
        None
    }
}

/// The characters of `s`, one by one.
pub fn chars_of(s: &str) -> (chars: Vec<char>)
    ensures
        chars@ == s@,
{
    let mut chars: Vec<char> = Vec::new();
    for c in it: s.chars()
        invariant
            chars@ == it.seq().take(it.index() as int),
            it.seq() == s@,
    {
        chars.push(c);
    }
    chars
}

/// Whether two texts are the same, character by character.
pub fn same_text(a: &str, b: &str) -> (same: bool)
    ensures
        same == (a@ == b@),
{
    a.to_owned() == b.to_owned()
}

/// The position of the first `c` among the characters from `start` up to `end`,
/// or `end` where there is none.
pub fn position_of(chars: &Vec<char>, c: char, start: usize, end: usize) -> (position: usize)
    requires
        start <= end <= chars.len(),
    ensures
        position == start + find(chars@.subrange(start as int, end as int), c),
        position <= end,
{
    let mut i: usize = start;
    while i < end
        invariant
            start <= i <= end <= chars.len(),
            start + find(chars@.subrange(start as int, end as int), c) == i + find(
                chars@.subrange(i as int, end as int),
                c,
            ),
        decreases end - i,
    {
        if chars[i] == c {
            return i;
        }
        assert(chars@.subrange(i as int, end as int).drop_first() == chars@.subrange(
            i + 1,
            end as int,
        ));
        i += 1;
    }
    i
}

/// Whether `needle` occurs in `text`.
pub fn contains_text(text: &str, needle: &str) -> (found: bool)
    ensures
        found == occurs(needle@, text@),
{
    let text_chars = chars_of(text);
    let needle_chars = chars_of(needle);
    if needle_chars.len() > text_chars.len() {
        return false;
    }
    let last: usize = text_chars.len() - needle_chars.len();
    let mut i: usize = 0;
    loop
        invariant
            text_chars@ == text@,
            needle_chars@ == needle@,
            last == text_chars.len() - needle_chars.len(),
            i <= last,
            forall|j: int| 0 <= j < i ==> !#[trigger] stands_at(needle@, text@, j),
        decreases last - i,
    {
        let mut k: usize = 0;
        while k < needle_chars.len() && text_chars[i + k] == needle_chars[k]
            invariant
                text_chars@ == text@,
                needle_chars@ == needle@,
                last == text_chars.len() - needle_chars.len(),
                i <= last,
                k <= needle@.len(),
                forall|j: int| 0 <= j < k ==> text@[i + j] == needle@[j],
            decreases needle_chars.len() - k,
        {
            k += 1;
        }
        if k == needle_chars.len() {
            assert(text@.subrange(i as int, i + needle@.len()) =~= needle@);
            assert(stands_at(needle@, text@, i as int));
            return true;
        }
        assert(!stands_at(needle@, text@, i as int)) by {
            assert(text@.subrange(i as int, i + needle@.len())[k as int] == text@[i + k]);
        }
        if i == last {
            return false;
        }
        i += 1;
    }
}

/// The strings of `list` from position `start` on, one space between each two
/// of them.
pub fn joined_after(list: &Vec<String>, start: usize) -> (text: String)
    ensures
        text@ == join(after(texts(list@), start as nat), " "@),
{
    let mut text = String::new();
    if start >= list.len() {
        assert(after(texts(list@), start as nat) =~= seq![]);
        return text;
    }
    let ghost rest = texts(list@).skip(start as int);
    let mut i: usize = start;
    while i < list.len()
        invariant
            start <= i <= list.len(),
            rest == texts(list@).skip(start as int),
            text@ == join(rest.take(i - start), " "@),
        decreases list.len() - i,
    {
        if i != start {
            text.append(" ");
        }
        text.append(list[i].as_str());
        proof {
            let done = rest.take(i - start + 1);
            assert(done.drop_last() =~= rest.take(i - start));
            assert(done.last() == list[i as int]@);
            if i == start {
                assert(text@ =~= list[i as int]@);
            }
        }
        i += 1;
    }
    assert(rest.take(list.len() - start) =~= rest);
    text
}

/// Reads `text` as a number in base ten, as `decimal` says.
pub fn parse_decimal(text: &str) -> (number: Option<u64>)
    ensures
        number == decimal(text@),
{
    let chars = chars_of(text);
    let start: usize = if chars.len() > 0 && chars[0] == '+' { 1 } else { 0 };
    if start == chars.len() {
        return None;
    }
    let ghost digits = unsigned(text@);
    assert(digits =~= chars@.skip(start as int));
    let mut value: u64 = 0;
    let mut i: usize = start;
    while i < chars.len()
        invariant
            start <= i <= chars.len(),
            digits == chars@.skip(start as int),
            digits == unsigned(text@),
            forall|j: int| 0 <= j < i - start ==> is_digit(#[trigger] digits[j]),
            value == digits_value(digits.take(i - start)),
        decreases chars.len() - i,
    {
        let c = chars[i];
        assert(digits[i - start] == c);
        if c < '0' || c > '9' {
            return None;
        }
        let digit: u64 = (c as u32 - '0' as u32) as u64;
        assert(digits.take(i - start + 1).drop_last() =~= digits.take(i - start));
        if value > (u64::MAX - digit) / 10 {
            proof {
                lemma_digits_value_grows(digits, (i - start + 1) as nat);
            }
            return None;
        }
        value = value * 10 + digit;
        i += 1;
    }
    assert(digits.take(chars.len() - start) =~= digits);
    Some(value)
}

/// More digits never write a smaller number.
proof fn lemma_digits_value_grows(digits: Seq<char>, n: nat)
    requires
        n <= digits.len(),
    ensures
        digits_value(digits.take(n as int)) <= digits_value(digits),
    decreases digits.len(),
{
    if n < digits.len() {
        lemma_digits_value_grows(digits.drop_last(), n);
        assert(digits.drop_last().take(n as int) =~= digits.take(n as int));
    } else {
        assert(digits.take(n as int) =~= digits);
    }
}

} // verus!
