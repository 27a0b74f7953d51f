use vstd::prelude::*;

verus! {

/// A rectangle of terminal cells.
#[derive(Clone, Copy, Debug, PartialEq, Eq, Structural)]
pub struct Rect {
    pub x: u16,
    pub y: u16,
    pub width: u16,
    pub height: u16,
}

/// A rectangle that does not run past the last terminal cell.
pub open spec fn fits_screen(r: Rect) -> bool {
    r.x + r.width <= u16::MAX && r.y + r.height <= u16::MAX
}

pub open spec fn saturating_sub(a: u16, b: u16) -> int {
    if a >= b {
        a - b
    } else {
        0
    }
}

pub open spec fn min(a: u16, b: u16) -> u16 {
    if a <= b {
        a
    } else {
        b
    }
}

/// The popup of `width` by `height` cells centered within `area` (shrunk to fit).
pub open spec fn centered(area: Rect, width: u16, height: u16) -> Rect {
    Rect {
        x: (area.x + saturating_sub(area.width, width) / 2) as u16,
        y: (area.y + saturating_sub(area.height, height) / 2) as u16,
        width: min(width, area.width),
        height: min(height, area.height),
    }
}

/// Computes a centered popup rect of the given dimensions within `area`.
pub fn centered_rect(area: Rect, width: u16, height: u16) -> (res: Rect)
    requires
        fits_screen(area),
    ensures
        res == centered(area, width, height),
{
    Rect {
        x: area.x + area.width.saturating_sub(width) / 2,
        y: area.y + area.height.saturating_sub(height) / 2,
        width: if width <= area.width {
            width
        } else {
            area.width
        },
        height: if height <= area.height {
            height
        } else {
            area.height
        },
    }
}

/// The popup lies inside the area, and its margins on either side differ by at most one cell.
pub proof fn lemma_popup_is_centered_inside(area: Rect, width: u16, height: u16)
    requires
        fits_screen(area),
    ensures
        ({
            let p = centered(area, width, height);
            &&& area.x <= p.x
            &&& p.x + p.width <= area.x + area.width
            &&& area.y <= p.y
            &&& p.y + p.height <= area.y + area.height
            &&& (area.x + area.width - (p.x + p.width)) - (p.x - area.x) <= 1
            &&& (area.x + area.width - (p.x + p.width)) - (p.x - area.x) >= 0
            &&& (area.y + area.height - (p.y + p.height)) - (p.y - area.y) <= 1
            &&& (area.y + area.height - (p.y + p.height)) - (p.y - area.y) >= 0
        }),
{
}

} // verus!
