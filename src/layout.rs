use vstd::prelude::*;

use ratatui::layout::{Constraint, Direction, Layout, Rect};

verus! {

/// A rectangle of terminal cells.
#[derive(Clone, Copy, Debug, PartialEq, Eq, Structural)]
pub struct Area {
    pub x: u16,
    pub y: u16,
    pub width: u16,
    pub height: u16,
}

/// The share, in percent, left on each side of a centred band of `percent`.
pub fn centered_margin(percent: u16) -> (r: u16)
    requires
        percent <= 100,
    ensures
        r == (100 - percent) / 2,
        2 * r + percent <= 100,
{
    (100 - percent) / 2
}

/// The middle part when `a` is cut, across its height if `vertical` and else across
/// its width, into shares of `margin`, `percent` and `margin` percent.
pub uninterp spec fn middle_band(a: Area, vertical: bool, margin: u16, percent: u16) -> Area;

/// Relies on ratatui's `Layout::split`: the middle of three percentage constraints.
#[verifier::external_body]
fn split_middle(a: Area, vertical: bool, margin: u16, percent: u16) -> (r: Area)
    ensures
        r == middle_band(a, vertical, margin, percent),
{
    let direction = if vertical { Direction::Vertical } else { Direction::Horizontal };
    let parts = Layout::default().direction(direction).constraints([
        Constraint::Percentage(margin),
        Constraint::Percentage(percent),
        Constraint::Percentage(margin),
    ]).split(Rect::new(a.x, a.y, a.width, a.height));
    Area { x: parts[1].x, y: parts[1].y, width: parts[1].width, height: parts[1].height }
}

/// The area of `percent_x` of the width and `percent_y` of the height in the middle of `r`.
pub fn centered_rect(percent_x: u16, percent_y: u16, r: Area) -> (out: Area)
    requires
        percent_x <= 100,
        percent_y <= 100,
    ensures
        out == middle_band(
            middle_band(r, true, ((100 - percent_y) / 2) as u16, percent_y),
            false,
            ((100 - percent_x) / 2) as u16,
            percent_x,
        ),
{
    let row = split_middle(r, true, centered_margin(percent_y), percent_y);
    split_middle(row, false, centered_margin(percent_x), percent_x)
}

} // verus!
