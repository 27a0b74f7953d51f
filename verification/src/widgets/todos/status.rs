use vstd::prelude::*;

use crate::utils::text::{decimal, push_decimal};

verus! {

pub struct StatusProps {
    /// Total number of todos across all pages.
    pub total: usize,
    /// Index of the first item shown on the current page (inclusive).
    pub from: usize,
    /// Index of the last item shown on the current page (exclusive).
    pub to: usize,
    /// Current page number (1-based).
    pub page: usize,
}

impl StatusProps {
    pub fn new(total: usize, from: usize, to: usize, page: usize) -> (res: Self)
        ensures
            res.total == total,
            res.from == from,
            res.to == to,
            res.page == page,
    {
        StatusProps { total, from, to, page }
    }
}

/// `Page P • Range F-T • Showing N/TOTAL items`, where `N` is the number of items shown.
pub open spec fn status_line(p: StatusProps) -> Seq<char> {
    "Page "@ + decimal(p.page as nat) + " • Range "@ + decimal(p.from as nat) + "-"@ + decimal(
        p.to as nat,
    ) + " • Showing "@ + decimal((p.to - p.from) as nat) + "/"@ + decimal(p.total as nat)
        + " items"@
}

pub struct StatusWidget<'a> {
    props: &'a StatusProps,
}

impl<'a> StatusWidget<'a> {
    pub closed spec fn spec_props(&self) -> &'a StatusProps {
        self.props
    }

    pub fn new(props: &'a StatusProps) -> (res: Self)
        ensures
            res.spec_props() == props,
    {
        StatusWidget { props }
    }

    pub fn props(&self) -> (res: &'a StatusProps)
        ensures
            res == self.spec_props(),
    {
        self.props
    }

    /// The text the widget shows; a page never ends before it starts.
    pub fn text(&self) -> (res: String)
        requires
            self.spec_props().from <= self.spec_props().to,
        ensures
            res@ == status_line(*self.spec_props()),
    {
        let p = self.props;
        let mut out = String::new();
        out.append("Page ");
        push_decimal(&mut out, p.page as u64);
        out.append(" • Range ");
        push_decimal(&mut out, p.from as u64);
        out.append("-");
        push_decimal(&mut out, p.to as u64);
        out.append(" • Showing ");
        push_decimal(&mut out, (p.to - p.from) as u64);
        out.append("/");
        push_decimal(&mut out, p.total as u64);
        out.append(" items");
        out
    }
}

} // verus!
