use vstd::prelude::*;

use crate::kinds::color::Color;
use crate::models::session::Stat;
use crate::utils::text::{decimal, push_decimal};

verus! {

/// Props for the active-todo display bar at the bottom of the timer.
pub struct TodoShowProps<'a> {
    /// The text of the todo currently linked to the timer session, if any.
    pub todo: Option<&'a str>,
    /// Accumulated session statistics for the active todo, if any.
    pub stat: Option<&'a Stat>,
    /// Phase color.
    pub color: Color,
}

impl<'a> TodoShowProps<'a> {
    pub fn new(todo: Option<&'a str>, stat: Option<&'a Stat>, color: Color) -> (res: Self)
        ensures
            res.todo == todo,
            res.stat == stat,
            res.color == color,
    {
        TodoShowProps { todo, stat, color }
    }
}

/// The line shown for the active todo: its text, with the completed sessions and minutes
/// when there are stats, or a hint to pick one.
pub open spec fn todo_line(todo: Option<&str>, stat: Option<&Stat>) -> Seq<char> {
    match todo {
        Some(text) => match stat {
            Some(s) => text@ + "  ·  "@ + decimal(s.completed_sessions as nat) + " sessions  ·  "@
                + decimal((s.completed_secs / 60) as nat) + " min"@,
            None => text@,
        },
        None => "No todo selected  [t] pick"@,
    }
}

pub struct TodoShowWidget<'a> {
    props: &'a TodoShowProps<'a>,
}

impl<'a> TodoShowWidget<'a> {
    pub closed spec fn spec_props(&self) -> &'a TodoShowProps<'a> {
        self.props
    }

    pub fn new(props: &'a TodoShowProps<'a>) -> (res: Self)
        ensures
            res.spec_props() == props,
    {
        TodoShowWidget { props }
    }

    pub fn color(&self) -> (res: Color)
        ensures
            res == self.spec_props().color,
    {
        self.props.color
    }

    /// The text the widget shows.
    pub fn text(&self) -> (res: String)
        ensures
            res@ == todo_line(self.spec_props().todo, self.spec_props().stat),
    {
        match self.props.todo {
            Some(text) => match self.props.stat {
                Some(stat) => {
                    let mut out = String::new();
                    out.append(text);
                    out.append("  ·  ");
                    push_decimal(&mut out, stat.completed_sessions as u64);
                    out.append(" sessions  ·  ");
                    push_decimal(&mut out, (stat.completed_secs / 60) as u64);
                    out.append(" min");
                    out
                },
                None => text.to_owned(),
            },
            None => "No todo selected  [t] pick".to_owned(),
        }
    }
}

} // verus!
