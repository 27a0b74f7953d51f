use vstd::prelude::*;

use crate::kinds::color::Color;

verus! {

pub struct StatusProps {
    pub running: bool,
    /// Phase color.
    pub color: Color,
}

impl StatusProps {
    pub fn new(running: bool, color: Color) -> (res: Self)
        ensures
            res.running == running,
            res.color == color,
    {
        StatusProps { running, color }
    }
}

/// Stateless widget that renders "Running" or "Paused".
pub struct StatusWidget<'a> {
    props: &'a StatusProps,
}

impl<'a> StatusWidget<'a> {
    pub closed spec fn spec_props(&self) -> &'a StatusProps {
        self.props
    }

    pub fn new(props: &'a StatusProps) -> (res: Self)
        ensures
            res.spec_props() == props,
    {
        StatusWidget { props }
    }

    /// What the widget shows: "Running" in the phase color, or "Paused" in dark gray.
    pub fn content(&self) -> (res: (&'static str, Color))
        ensures
            self.spec_props().running ==> res.0@ == "Running"@ && res.1 == self.spec_props().color,
            !self.spec_props().running ==> res.0@ == "Paused"@ && res.1 == Color::DarkGray,
    {
        if self.props.running {
            ("Running", self.props.color)
        } else {
            ("Paused", Color::DarkGray)
        }
    }
}

} // verus!
