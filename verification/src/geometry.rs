//! Rectangles on the terminal.

use crate::text::{least, minus, most};
use vstd::prelude::*;

verus! {

/// A rectangle of terminal cells.
#[derive(Clone, Copy, Debug, PartialEq, Eq, Structural)]
pub struct Rect {
    pub x: u16,
    pub y: u16,
    pub width: u16,
    pub height: u16,
}

/// The rectangle with the given corner and size.
#[verifier::allow_in_spec]
pub fn rect(x: u16, y: u16, width: u16, height: u16) -> Rect
    returns
        (Rect { x, y, width, height }),
{
    Rect { x, y, width, height }
}

/// `a + b`, held to the largest `u16`.
pub open spec fn plus16(a: int, b: int) -> int {
    if a + b > u16::MAX {
        u16::MAX as int
    } else {
        a + b
    }
}

impl Rect {
    /// The rectangle ends at a column and a row that the terminal can count.
    pub open spec fn wf(self) -> bool {
        &&& self.x + self.width <= u16::MAX
        &&& self.y + self.height <= u16::MAX
    }

    /// The cell at column `x`, row `y` lies in the rectangle.
    pub open spec fn holds(self, x: int, y: int) -> bool {
        &&& self.x <= x < self.x + self.width
        &&& self.y <= y < self.y + self.height
    }

    /// Every cell of this rectangle's span lies in `outer`'s.
    pub open spec fn within(self, outer: Rect) -> bool {
        &&& outer.x <= self.x
        &&& outer.y <= self.y
        &&& self.x + self.width <= outer.x + outer.width
        &&& self.y + self.height <= outer.y + outer.height
    }

    /// The first column right of the rectangle.
    pub fn right(self) -> (r: u16)
        ensures
            r == plus16(self.x as int, self.width as int),
    {
        self.x.saturating_add(self.width)
    }

    /// The first row below the rectangle.
    pub fn bottom(self) -> (r: u16)
        ensures
            r == plus16(self.y as int, self.height as int),
    {
        self.y.saturating_add(self.height)
    }

    /// Whether the cell at column `x`, row `y` lies in the rectangle.
    pub fn contains(self, x: u16, y: u16) -> (r: bool)
        ensures
            r == self.holds(x as int, y as int),
    {
        x >= self.x && (x - self.x) < self.width && y >= self.y && (y - self.y) < self.height
    }
}

/// What remains of `r` inside a one-cell border.
pub open spec fn inside_border(r: Rect) -> Rect {
    let x = if r.width == 0 { r.x as int } else { r.x + 1 };
    let y = if r.height == 0 { r.y as int } else { r.y + 1 };
    Rect {
        x: x as u16,
        y: y as u16,
        width: if r.width >= 2 { (r.width - 2) as u16 } else { 0 },
        height: if r.height >= 2 { (r.height - 2) as u16 } else { 0 },
    }
}

/// What remains of `r` inside a one-cell border.
pub fn inner(r: Rect) -> (result: Rect)
    requires
        r.wf(),
    ensures
        result == inside_border(r),
        result.wf(),
        result.within(r),
{
    let x: u16 = if r.width == 0 { r.x } else { r.x + 1 };
    let y: u16 = if r.height == 0 { r.y } else { r.y + 1 };
    Rect { x, y, width: r.width.saturating_sub(2), height: r.height.saturating_sub(2) }
}

/// A rectangle of the given size in the middle of `area`, held to its size.
pub open spec fn centered(width: int, height: int, area: Rect) -> Rect {
    Rect {
        x: (area.x + minus(area.width as int, width) / 2) as u16,
        y: (area.y + minus(area.height as int, height) / 2) as u16,
        width: least(width, area.width as int) as u16,
        height: least(height, area.height as int) as u16,
    }
}

/// Center a rectangle within a parent area.
pub fn centered_rect(width: u16, height: u16, area: Rect) -> (r: Rect)
    requires
        area.wf(),
    ensures
        r == centered(width as int, height as int, area),
        r.within(area),
        r.wf(),
{
    let x: u16 = area.x + area.width.saturating_sub(width) / 2;
    let y: u16 = area.y + area.height.saturating_sub(height) / 2;
    Rect {
        x,
        y,
        width: if width <= area.width { width } else { area.width },
        height: if height <= area.height { height } else { area.height },
    }
}

/// A rectangle in the middle of a screen: `wide` and `high` hundredths of its size,
/// at least `min_w` by `min_h`, and two cells smaller than the screen at most.
pub open spec fn share(width: int, height: int, wide: int, min_w: int, high: int, min_h: int) -> Rect {
    let w = least(most(width * wide / 100, min_w), minus(width, 2));
    let h = least(most(height * high / 100, min_h), minus(height, 2));
    Rect {
        x: (minus(width, w) / 2) as u16,
        y: (minus(height, h) / 2) as u16,
        width: w as u16,
        height: h as u16,
    }
}

/// A rectangle in the middle of a screen: `wide` and `high` hundredths of its size,
/// at least `min_w` by `min_h`, and two cells smaller than the screen at most.
pub fn share_rect(width: u16, height: u16, wide: u16, min_w: u16, high: u16, min_h: u16) -> (r: Rect)
    requires
        wide <= 100,
        high <= 100,
    ensures
        r == share(
            width as int,
            height as int,
            wide as int,
            min_w as int,
            high as int,
            min_h as int,
        ),
        r.wf(),
        r.x + r.width <= width,
        r.y + r.height <= height,
{
    proof {
        assert(0 <= width * wide <= 65535 * 100) by (nonlinear_arith)
            requires
                0 <= width <= 65535,
                0 <= wide <= 100,
        ;
        assert(0 <= height * high <= 65535 * 100) by (nonlinear_arith)
            requires
                0 <= height <= 65535,
                0 <= high <= 100,
        ;
    }
    let part_w: u16 = (width as u32 * wide as u32 / 100) as u16;
    let part_h: u16 = (height as u32 * high as u32 / 100) as u16;
    let w: u16 = if part_w >= min_w { part_w } else { min_w };
    let h: u16 = if part_h >= min_h { part_h } else { min_h };
    let max_w: u16 = width.saturating_sub(2);
    let max_h: u16 = height.saturating_sub(2);
    let w: u16 = if w <= max_w { w } else { max_w };
    let h: u16 = if h <= max_h { h } else { max_h };
    Rect { x: width.saturating_sub(w) / 2, y: height.saturating_sub(h) / 2, width: w, height: h }
}

} // verus!
