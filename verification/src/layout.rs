//! Terminal geometry in cells and pixels.

use vstd::prelude::*;

verus! {

/// A rectangle of terminal cells.
#[derive(Debug, Clone, Copy, PartialEq, Eq, Structural)]
pub struct Rect {
    pub x: u16,
    pub y: u16,
    pub width: u16,
    pub height: u16,
}

impl Rect {
    /// The rectangle with its upper left corner at (`x`, `y`).
    pub fn new(x: u16, y: u16, width: u16, height: u16) -> (rect: Rect)
        ensures
            rect == (Rect { x, y, width, height }),
    {
        Rect { x, y, width, height }
    }

    /// Whether `inner` lies within this rectangle.
    pub open spec fn holds(self, inner: Rect) -> bool {
        &&& self.x <= inner.x
        &&& self.y <= inner.y
        &&& inner.x + inner.width <= self.x + self.width
        &&& inner.y + inner.height <= self.y + self.height
    }

    /// Whether the rectangle ends within the coordinate range.
    pub open spec fn fits(self) -> bool {
        self.x + self.width <= u16::MAX && self.y + self.height <= u16::MAX
    }
}

/// The size of a terminal cell in pixels.
#[derive(Debug, Clone, Copy, PartialEq, Eq, Structural)]
pub struct FontSize {
    pub width: u16,
    pub height: u16,
}

impl FontSize {
    /// A cell of the given size.
    pub fn new(width: u16, height: u16) -> (size: FontSize)
        ensures
            size == (FontSize { width, height }),
    {
        FontSize { width, height }
    }

    /// The width of a cell, at least one pixel.
    pub open spec fn cell_width(self) -> int {
        if self.width >= 1 {
            self.width as int
        } else {
            1
        }
    }

    /// The height of a cell, at least one pixel.
    pub open spec fn cell_height(self) -> int {
        if self.height >= 1 {
            self.height as int
        } else {
            1
        }
    }
}

/// The smaller of two numbers.
pub open spec fn smaller(a: int, b: int) -> int {
    if a <= b {
        a
    } else {
        b
    }
}

/// The larger of two numbers.
pub open spec fn larger(a: int, b: int) -> int {
    if a >= b {
        a
    } else {
        b
    }
}

/// The side of the largest square, in pixels, that `area` holds.
pub open spec fn square_edge(area: Rect, font: FontSize) -> int {
    smaller(area.width * font.cell_width(), area.height * font.cell_height())
}

/// The side of the largest square, in pixels, that `area` holds.
pub fn square_edge_px(area: Rect, font: FontSize) -> (edge: u32)
    ensures
        edge == square_edge(area, font),
{
    let cell_width: u32 = if font.width >= 1 {
        font.width as u32
    } else {
        1
    };
    let cell_height: u32 = if font.height >= 1 {
        font.height as u32
    } else {
        1
    };
    assert(0 <= area.width * font.cell_width() <= 65535 * 65535) by (nonlinear_arith)
        requires
            0 <= area.width <= 65535,
            0 <= font.cell_width() <= 65535,
    ;
    assert(0 <= area.height * font.cell_height() <= 65535 * 65535) by (nonlinear_arith)
        requires
            0 <= area.height <= 65535,
            0 <= font.cell_height() <= 65535,
    ;
    let width_px: u32 = area.width as u32 * cell_width;
    let height_px: u32 = area.height as u32 * cell_height;
    if width_px <= height_px {
        width_px
    } else {
        height_px
    }
}

/// `area` without a margin on each side, or the empty rectangle at the origin
/// where the margins leave nothing.
pub open spec fn inset(area: Rect, horizontal: int, vertical: int) -> Rect {
    if area.width < 2 * horizontal || area.height < 2 * vertical {
        Rect { x: 0, y: 0, width: 0, height: 0 }
    } else {
        Rect {
            x: smaller(area.x + horizontal, u16::MAX as int) as u16,
            y: smaller(area.y + vertical, u16::MAX as int) as u16,
            width: (area.width - 2 * horizontal) as u16,
            height: (area.height - 2 * vertical) as u16,
        }
    }
}

/// `area` without a margin of `horizontal` columns and `vertical` rows on each
/// side.
pub(crate) fn inner(area: Rect, horizontal: u16, vertical: u16) -> (rect: Rect)
    requires
        horizontal <= 1,
        vertical <= 1,
    ensures
        rect == inset(area, horizontal as int, vertical as int),
{
    if area.width < 2 * horizontal || area.height < 2 * vertical {
        Rect { x: 0, y: 0, width: 0, height: 0 }
    } else {
        Rect {
            x: area.x.saturating_add(horizontal),
            y: area.y.saturating_add(vertical),
            width: area.width - 2 * horizontal,
            height: area.height - 2 * vertical,
        }
    }
}

} // verus!
