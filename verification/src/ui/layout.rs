//! Where things are placed on the terminal.

use vstd::prelude::*;

verus! {

/// A rectangle of terminal cells: the column and row of its upper left
/// corner, and its size.
#[derive(Debug, Clone, Copy, PartialEq, Eq, Structural)]
pub struct Rect {
    pub x: u16,
    pub y: u16,
    pub width: u16,
    pub height: u16,
}

/// The lesser of two lengths.
pub open spec fn shorter(a: u16, b: u16) -> u16 {
    if a <= b {
        a
    } else {
        b
    }
}

impl Rect {
    /// The column behind the last column of the rectangle.
    pub open spec fn right(self) -> int {
        self.x + self.width
    }

    /// The row below the last row of the rectangle.
    pub open spec fn bottom(self) -> int {
        self.y + self.height
    }

    /// The rectangle lies on the terminal: its last column and row can be
    /// counted.
    pub open spec fn fits(self) -> bool {
        self.right() <= u16::MAX && self.bottom() <= u16::MAX
    }

    /// `inner` lies inside the rectangle.
    pub open spec fn contains(self, inner: Rect) -> bool {
        &&& self.x <= inner.x
        &&& self.y <= inner.y
        &&& inner.right() <= self.right()
        &&& inner.bottom() <= self.bottom()
    }

    /// The card of the given size in the middle of the rectangle: as wide
    /// and as high as asked for, at most as the rectangle itself, with the
    /// room that is left shared out evenly, the odd cell going to the right
    /// and to the bottom. A corner that would lie beyond the last column or
    /// row that can be counted lies on it.
    pub open spec fn centered(self, width: u16, height: u16) -> Rect {
        let w = shorter(width, self.width);
        let h = shorter(height, self.height);
        Rect {
            x: at_most_last(self.x + (self.width - w) / 2),
            y: at_most_last(self.y + (self.height - h) / 2),
            width: w,
            height: h,
        }
    }
}

/// The column or row `n`, or the last one that can be counted where `n`
/// lies beyond it.
pub open spec fn at_most_last(n: int) -> u16 {
    if n <= u16::MAX {
        n as u16
    } else {
        u16::MAX
    }
}

/// Returns the sum of a corner and an offset, at most the last column or
/// row that can be counted.
fn offset_by(corner: u16, offset: u16) -> (sum: u16)
    ensures
        sum == at_most_last(corner + offset),
{
    if offset <= u16::MAX - corner {
        corner + offset
    } else {
        u16::MAX
    }
}

/// Returns the card of the given size in the middle of `area`. Where the
/// area lies on the terminal, the card lies inside the area, and the room
/// to its left and right, and above and below it, differs by one cell at
/// most.
pub fn centered_card(area: Rect, width: u16, height: u16) -> (card: Rect)
    ensures
        card == area.centered(width, height),
        card.width == shorter(width, area.width),
        card.height == shorter(height, area.height),
        area.fits() ==> {
            &&& area.contains(card)
            &&& card.x - area.x <= area.right() - card.right() <= card.x - area.x + 1
            &&& card.y - area.y <= area.bottom() - card.bottom() <= card.y - area.y + 1
        },
{
    let w = if width <= area.width {
        width
    } else {
        area.width
    };
    let h = if height <= area.height {
        height
    } else {
        area.height
    };
    Rect {
        x: offset_by(area.x, (area.width - w) / 2),
        y: offset_by(area.y, (area.height - h) / 2),
        width: w,
        height: h,
    }
}

} // verus!
