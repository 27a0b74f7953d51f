use vstd::prelude::*;

use crate::kinds::key::{KeyCode, KeyEvent};
use crate::utils::text::{pop_char, push_char};

verus! {

pub enum SearchAction {
    /// User pressed Enter; keeps the filter active and closes the bar.
    Confirm,
    /// User pressed Escape; clears the filter and closes the bar.
    Cancel,
    /// Query text changed; carries the new query string.
    QueryChanged(String),
    /// The key changed nothing the caller has to act on.
    Nothing,
}

pub struct SearchProps {
    pub query: String,
    /// Whether the search bar is actively being typed into (shows block cursor).
    pub active: bool,
}

impl SearchProps {
    pub fn new(query: &str, active: bool) -> (res: Self)
        ensures
            res.query@ == query@,
            res.active == active,
    {
        SearchProps { query: query.to_owned(), active }
    }
}

/// The query after a key press: a character is typed at the end, Backspace deletes the
/// last one, every other key leaves it alone.
pub open spec fn query_after(query: Seq<char>, code: KeyCode) -> Seq<char> {
    match code {
        KeyCode::Char(c) => query.push(c),
        KeyCode::Backspace => if query.len() > 0 {
            query.drop_last()
        } else {
            query
        },
        _ => query,
    }
}

pub struct SearchState {
    props: SearchProps,
}

impl SearchState {
    pub closed spec fn spec_props(&self) -> &SearchProps {
        &self.props
    }

    /// Creates a new `SearchState`, optionally pre-filling with an existing query.
    pub fn new(existing_query: &str) -> (res: Self)
        ensures
            res.spec_props().query@ == existing_query@,
            res.spec_props().active,
    {
        SearchState { props: SearchProps::new(existing_query, true) }
    }

    pub fn props(&self) -> (res: &SearchProps)
        ensures
            res == self.spec_props(),
    {
        &self.props
    }

    /// Applies a key press to the query: Enter confirms, Esc cancels, typing and Backspace
    /// edit the query and report the new one.
    pub fn handle(&mut self, key: KeyEvent) -> (res: SearchAction)
        ensures
            final(self).spec_props().query@ == query_after(old(self).spec_props().query@, key.code),
            final(self).spec_props().active == old(self).spec_props().active,
            match key.code {
                KeyCode::Enter => res is Confirm,
                KeyCode::Esc => res is Cancel,
                KeyCode::Char(_) | KeyCode::Backspace => res matches SearchAction::QueryChanged(q)
                    && q@ == final(self).spec_props().query@,
                _ => res is Nothing,
            },
    {
        match key.code {
            KeyCode::Enter => SearchAction::Confirm,
            KeyCode::Esc => SearchAction::Cancel,
            KeyCode::Backspace => {
                pop_char(&mut self.props.query);
                SearchAction::QueryChanged(self.props.query.clone())
            },
            KeyCode::Char(c) => {
                push_char(&mut self.props.query, c);
                SearchAction::QueryChanged(self.props.query.clone())
            },
            _ => SearchAction::Nothing,
        }
    }
}

/// Typing a character and deleting it again gives back the query as it was.
pub proof fn lemma_type_then_backspace(query: Seq<char>, c: char)
    ensures
        query_after(query_after(query, KeyCode::Char(c)), KeyCode::Backspace) == query,
{
    assert(query.push(c).drop_last() =~= query);
}

/// Typing a character appends exactly that character and keeps the query before it;
/// Backspace removes exactly the last character (and leaves an empty query empty).
pub proof fn lemma_query_edits(query: Seq<char>, c: char)
    ensures
        query_after(query, KeyCode::Char(c)).len() == query.len() + 1,
        query_after(query, KeyCode::Char(c)).last() == c,
        query_after(query, KeyCode::Char(c)).subrange(0, query.len() as int) == query,
        query.len() > 0 ==> query_after(query, KeyCode::Backspace).len() == query.len() - 1,
        query.len() > 0 ==> query_after(query, KeyCode::Backspace) == query.subrange(
            0,
            query.len() - 1,
        ),
        query.len() == 0 ==> query_after(query, KeyCode::Backspace) == query,
{
    assert(query.push(c).subrange(0, query.len() as int) =~= query);
}

/// Stateless widget that renders the search line as `/query` with an optional block cursor.
pub struct SearchWidget<'a> {
    props: &'a SearchProps,
}

impl<'a> SearchWidget<'a> {
    pub closed spec fn spec_props(&self) -> &'a SearchProps {
        self.props
    }

    pub fn new(props: &'a SearchProps) -> (res: Self)
        ensures
            res.spec_props() == props,
    {
        SearchWidget { props }
    }

    pub fn props(&self) -> (res: &'a SearchProps)
        ensures
            res == self.spec_props(),
    {
        self.props
    }

    /// The search line: `/`, the query, and a block cursor while the bar is being typed into.
    pub fn line(&self) -> (res: String)
        ensures
            res@ == search_line(self.spec_props().query@, self.spec_props().active),
    {
        let mut out = "/".to_owned();
        out.append(self.props.query.as_str());
        if self.props.active {
            out.append("█");
        }
        out
    }
}

/// The text of the search line.
pub open spec fn search_line(query: Seq<char>, active: bool) -> Seq<char> {
    if active {
        "/"@ + query + "█"@
    } else {
        "/"@ + query
    }
}

} // verus!
