//! Rectangles of the screen and the requests by which they are divided.
//!
//! Dividing is done by the layout solver of `ratatui`. The solver works on
//! its own and promises little about where it puts the parts, so everything
//! built on it here takes the parts as they come.

use ratatui::layout as solver;
use ratatui::widgets::Block;
use vstd::prelude::*;

verus! {

/// A rectangle of the screen, in cells.
#[derive(Debug, Clone, Copy, PartialEq, Eq, Structural)]
pub struct Rect {
    pub x: u16,
    pub y: u16,
    pub width: u16,
    pub height: u16,
}

/// The axis along which a rectangle is divided.
#[derive(Debug, Clone, Copy, PartialEq, Eq, Structural)]
pub enum Direction {
    /// Parts side by side.
    Horizontal,
    /// Parts one below the other.
    Vertical,
}

/// The share of a rectangle that a part asks for along the axis.
#[derive(Debug, Clone, Copy, PartialEq, Eq, Structural)]
pub enum Constraint {
    /// Exactly this many cells.
    Length(u16),
    /// This many hundredths of the whole.
    Percentage(u16),
    /// A part of what is left over, in proportion to the weight.
    Fill(u16),
    /// At most this many cells.
    Max(u16),
}

/// `a + b`, or the largest number where the sum does not fit.
pub open spec fn capped_sum(a: u16, b: u16) -> u16 {
    if a + b > u16::MAX {
        u16::MAX
    } else {
        (a + b) as u16
    }
}

/// `a - b`, or zero where `b` is the larger.
pub open spec fn floored_difference(a: u16, b: u16) -> u16 {
    if a < b {
        0
    } else {
        (a - b) as u16
    }
}

/// What a border of one cell on every side leaves of `area`.
pub open spec fn inside_borders(area: Rect) -> Rect {
    let right = capped_sum(area.x, area.width);
    let bottom = capped_sum(area.y, area.height);
    Rect {
        x: if capped_sum(area.x, 1) < right {
            capped_sum(area.x, 1)
        } else {
            right
        },
        y: if capped_sum(area.y, 1) < bottom {
            capped_sum(area.y, 1)
        } else {
            bottom
        },
        width: floored_difference(area.width, 2),
        height: floored_difference(area.height, 2),
    }
}

/// Divides `area`, shrunk by `margin` cells on every side, along
/// `direction` by the layout solver of `ratatui`: `Layout::split`, on a
/// layout made by `Layout::new` and `Layout::margin`. The solver hands
/// back one part for each share that it was given, in their order; where
/// it puts them is its own matter.
#[verifier::external_body]
pub(crate) fn split(direction: Direction, margin: u16, shares: &Vec<Constraint>, area: Rect) -> (parts:
    Vec<Rect>)
    ensures
        parts@.len() == shares@.len(),
{
    let direction = match direction {
        Direction::Horizontal => solver::Direction::Horizontal,
        Direction::Vertical => solver::Direction::Vertical,
    };
    let shares = shares.iter().map(|share| match *share {
        Constraint::Length(n) => solver::Constraint::Length(n),
        Constraint::Percentage(n) => solver::Constraint::Percentage(n),
        Constraint::Fill(n) => solver::Constraint::Fill(n),
        Constraint::Max(n) => solver::Constraint::Max(n),
    });
    let Rect { x, y, width, height } = area;
    let layout = solver::Layout::new(direction, shares).margin(margin);
    layout.split(solver::Rect { x, y, width, height }).iter()
        .map(|&solver::Rect { x, y, width, height }| Rect { x, y, width, height })
        .collect()
}

/// The inside of a block of `ratatui` that has a border on all four sides
/// and no padding (`Block::inner`): one cell is taken off on every side, as
/// far as there are cells to take.
#[verifier::external_body]
pub(crate) fn bordered_inner(area: Rect) -> (inner: Rect)
    ensures
        inner == inside_borders(area),
{
    let Rect { x, y, width, height } = area;
    let area = solver::Rect { x, y, width, height };
    let solver::Rect { x, y, width, height } = Block::bordered().inner(area);
    Rect { x, y, width, height }
}

} // verus!
