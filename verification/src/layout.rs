//! Division of the terminal into areas.

use vstd::prelude::*;

use ratatui::layout::{Direction, Layout, Rect};
use ratatui::widgets::{Block, Borders};

use crate::draw::{least, minus, plus, Area};

verus! {

/// How much of an area one part of it is given.
#[derive(Debug, Clone, Copy, PartialEq, Eq, Structural)]
pub enum Share {
    /// That many rows or columns.
    Length(u16),
    /// At least that many rows or columns.
    Min(u16),
    /// That part of a hundred.
    Percentage(u16),
}

/// What is left of an area inside a border.
pub open spec fn inner_area(a: Area) -> Area {
    Area {
        x: least(plus(a.x, 1), plus(a.x, a.width as int)),
        y: least(plus(a.y, 1), plus(a.y, a.height as int)),
        width: minus(a.width, 2),
        height: minus(a.height, 2),
    }
}

/// Calls `ratatui::widgets::Block::inner` of a block with all four borders: the area moves in by
/// one cell on each side, stays inside the one it came from and loses two cells each way, as far
/// as it has them.
#[verifier::external_body]
pub(crate) fn inside_border(a: Area) -> (r: Area)
    ensures
        r == inner_area(a),
{
    let r = Block::default().borders(Borders::ALL).inner(
        Rect { x: a.x, y: a.y, width: a.width, height: a.height },
    );
    Area { x: r.x, y: r.y, width: r.width, height: r.height }
}

/// Whether an area may be divided, from top to bottom or from left to right, into these parts for
/// these shares.
pub uninterp spec fn may_split(
    vertical: bool,
    a: Area,
    shares: Seq<Share>,
    parts: Seq<Area>,
) -> bool;

/// Whether parts of an area that is divided from top to bottom are as wide as the whole and lie inside
/// it, or from left to right as high.
pub open spec fn lie_inside(vertical: bool, a: Area, parts: Seq<Area>) -> bool {
    forall|i: int|
        0 <= i < parts.len() ==> if vertical {
            &&& (#[trigger] parts[i]).x == a.x && parts[i].width == a.width
            &&& a.y <= parts[i].y
            &&& parts[i].y + parts[i].height <= plus(a.y, a.height as int)
        } else {
            &&& parts[i].y == a.y && parts[i].height == a.height
            &&& a.x <= parts[i].x
            &&& parts[i].x + parts[i].width <= plus(a.x, a.width as int)
        }
}

/// Whether parts of an area that is divided from top to bottom lie one below the other, or from left to
/// right one beside the other, in their order.
pub open spec fn lie_in_order(vertical: bool, parts: Seq<Area>) -> bool {
    forall|i: int, j: int|
        0 <= i < j < parts.len() ==> if vertical {
            (#[trigger] parts[i]).y + parts[i].height <= (#[trigger] parts[j]).y
        } else {
            parts[i].x + parts[i].width <= parts[j].x
        }
}

/// Whether an area may be divided into these parts for these shares: one for each, inside the area, in
/// order and without overlap.
pub open spec fn is_split(
    vertical: bool,
    a: Area,
    shares: Seq<Share>,
    parts: Seq<Area>,
) -> bool {
    &&& may_split(vertical, a, shares, parts)
    &&& parts.len() == shares.len()
    &&& lie_inside(vertical, a, parts)
    &&& lie_in_order(vertical, parts)
}

/// The number of shares up to which what is said of the parts of an area holds.
pub const MOST_SHARES: usize = 8;

/// Calls `ratatui::layout::Layout::split`: one area for each share, in order, as wide or as high as
/// the whole and inside it, without overlap, which is what the default spacing of a layout means. Where
/// along the division an area begins and ends is found by a constraint solver, which weighs what the
/// shares ask for; it is left to the name `may_split`, which holds of whatever it finds.
#[verifier::external_body]
pub(crate) fn split(vertical: bool, a: Area, shares: &Vec<Share>) -> (r: Vec<Area>)
    requires
        shares@.len() <= MOST_SHARES,
    ensures
        may_split(vertical, a, shares@, r@),
        r@.len() == shares@.len(),
        lie_inside(vertical, a, r@),
        lie_in_order(vertical, r@),
{
    let direction = if vertical { Direction::Vertical } else { Direction::Horizontal };
    let shares = shares.iter().map(|s| match s {
        Share::Length(n) => ratatui::layout::Constraint::Length(*n),
        Share::Min(n) => ratatui::layout::Constraint::Min(*n),
        Share::Percentage(n) => ratatui::layout::Constraint::Percentage(*n),
    });
    let rects = Layout::new(direction, shares).split(
        Rect { x: a.x, y: a.y, width: a.width, height: a.height },
    );
    rects.iter().map(|r| Area { x: r.x, y: r.y, width: r.width, height: r.height }).collect()
}

} // verus!
