//! Queries from client to client, which travel inside the text of a message
//! between two delimiters, the last of which may be missing.
use vstd::prelude::*;

use crate::strings::chars_of;
use crate::strings::find;
use crate::strings::position_of;

verus! {

/// What stands before a query, and behind it.
pub const DELIMITER: char = '\u{1}';

/// A query: the word that says what it asks for, and what follows that word.
#[derive(Debug, Clone, Copy)]
pub struct Query<'a> {
    pub command: &'a str,
    pub params: &'a str,
}

/// A query, by its characters.
pub struct QueryView {
    pub command: Seq<char>,
    pub params: Seq<char>,
}

impl<'a> View for Query<'a> {
    type V = QueryView;

    open spec fn view(&self) -> QueryView {
        QueryView { command: self.command@, params: self.params@ }
    }
}

impl QueryView {
    /// The query in `text`, if it is one: it starts with the delimiter, and a
    /// delimiter at its end is no part of it. The first space parts the command
    /// from its parameters.
    pub open spec fn parse(text: Seq<char>) -> Option<QueryView> {
        let open_ended = if text.len() > 0 && text.last() == DELIMITER {
            text.drop_last()
        } else {
            text
        };
        if open_ended.len() > 0 && open_ended[0] == DELIMITER {
            let query = open_ended.skip(1);
            let space = find(query, ' ') as int;
            Some(
                QueryView {
                    command: query.take(space),
                    params: if space < query.len() {
                        query.skip(space + 1)
                    } else {
                        seq![]
                    },
                },
            )
        } else {
            None
        }
    }
}

/// The query in `text`, if it is one.
pub fn parse_query(text: &str) -> (query: Option<Query<'_>>)
    ensures
        query is Some == QueryView::parse(text@) is Some,
        query matches Some(query) ==> QueryView::parse(text@) == Some(query@),
{
    let chars = chars_of(text);
    let mut end: usize = chars.len();
    if end > 0 && chars[end - 1] == DELIMITER {
        end = end - 1;
    }
    if end == 0 || chars[0] != DELIMITER {
        return None;
    }
    let ghost query = text@.subrange(1, end as int);
    assert(query =~= text@.take(end as int).skip(1));
    assert(end == text@.len() ==> text@.take(end as int) =~= text@);
    assert(end == text@.len() - 1 ==> text@.take(end as int) =~= text@.drop_last());
    let space = position_of(&chars, ' ', 1, end);
    let command = text.substring_char(1, space);
    assert(command@ =~= query.take(space - 1));
    let params_start: usize = if space < end { space + 1 } else { end };
    let params = text.substring_char(params_start, end);
    assert(space < end ==> params@ =~= query.skip(space as int));
    assert(space == end ==> params@ =~= seq![]);
    Some(Query { command, params })
}

} // verus!
