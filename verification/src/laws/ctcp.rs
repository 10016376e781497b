//! Queries from client to client.
use vstd::prelude::*;

use super::strings::law_find_is_first;
use crate::ctcp::parse_query;
use crate::ctcp::Query;
use crate::ctcp::QueryView;
use crate::strings::find;

verus! {

/// A text is a query exactly if it begins with the delimiter and is more than that
/// alone.
pub proof fn law_query_begins_with_delimiter(text: Seq<char>)
    ensures
        QueryView::parse(text) is Some <==> text.len() > 0 && text[0] == '\u{1}' && text
            != seq!['\u{1}'],
{
    if text.len() == 1 && text[0] == '\u{1}' {
        assert(text =~= seq!['\u{1}']);
    }
    if text.len() > 1 {
        assert(text.drop_last()[0] == text[0]);
    }
}

/// A query is put together from what is read of it: the delimiter, the command, the
/// parameters behind a space, if there are any, and the delimiter again, which may
/// be missing. The command holds no space.
pub proof fn law_query_is_what_its_text_says(text: Seq<char>)
    ensures
        QueryView::parse(text) matches Some(query) ==> {
            let head = seq!['\u{1}'] + query.command;
            let stem = head + seq![' '] + query.params;
            &&& !query.command.contains(' ')
            &&& {
                ||| text == stem + seq!['\u{1}']
                ||| text == stem && text.last() != '\u{1}'
                ||| text == head + seq!['\u{1}'] && query.params.len() == 0
                ||| text == head && query.params.len() == 0 && text.last() != '\u{1}'
            }
        },
{
    if let Some(query) = QueryView::parse(text) {
        let closed = text.last() == '\u{1}';
        let open_ended = if closed {
            text.drop_last()
        } else {
            text
        };
        let inner = open_ended.skip(1);
        let space = find(inner, ' ') as int;
        let head = seq!['\u{1}'] + query.command;
        let stem = head + seq![' '] + query.params;
        law_find_is_first(inner, ' ');
        assert(!query.command.contains(' ')) by {
            if query.command.contains(' ') {
                let i = choose|i: int| 0 <= i < query.command.len() && query.command[i] == ' ';
                assert(inner[i] == ' ');
            }
        }
        if space < inner.len() {
            assert(open_ended =~= stem);
            if closed {
                assert(text =~= stem + seq!['\u{1}']);
            }
        } else {
            assert(open_ended =~= head);
            if closed {
                assert(text =~= head + seq!['\u{1}']);
            }
        }
    }
}

/// What is read from a text as a query is that query.
pub proof fn law_parsed_query_is_what_its_text_says(text: &str, query: Option<Query<'_>>)
    requires
        call_ensures(parse_query, (text,), query),
    ensures
        query is Some <==> QueryView::parse(text@) is Some,
        query matches Some(query) ==> QueryView::parse(text@) == Some(
            QueryView { command: query.command@, params: query.params@ },
        ),
{
}

} // verus!
