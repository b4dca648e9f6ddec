//! Where things go: margins, the artwork pane, the progress bar and the volume
//! popup.

use vstd::prelude::*;
use crate::clock::{nanos_between, Moment};
use crate::layout::{inner, inset, larger, smaller, square_edge, square_edge_px, FontSize, Rect};

verus! {

/// Minimum body width before the right-third artwork column appears.
pub const ARTWORK_MIN_TOTAL: u16 = 96;

/// Small adaptive viewport gutter so bordered UI never touches terminal edges.
pub const OUTER_MARGIN_HORIZONTAL: u16 = 1;

/// See [`OUTER_MARGIN_HORIZONTAL`].
pub const OUTER_MARGIN_VERTICAL: u16 = 1;

/// Transient volume popup geometry.
pub const VOLUME_POPUP_WIDTH: u16 = 34;

/// See [`VOLUME_POPUP_WIDTH`].
pub const VOLUME_POPUP_HEIGHT: u16 = 5;

/// How long before its deadline the popup dims, in milliseconds.
pub const VOLUME_FADE_MS: u32 = 400;

/// The app surface within the terminal: a one-cell margin where the terminal
/// is wider than 40 columns or taller than 16 rows.
pub open spec fn surface(area: Rect) -> Rect {
    inset(
        area,
        if area.width > 40 {
            OUTER_MARGIN_HORIZONTAL as int
        } else {
            0
        },
        if area.height > 16 {
            OUTER_MARGIN_VERTICAL as int
        } else {
            0
        },
    )
}

/// Apply a tiny adaptive margin around the whole app surface.
pub fn content_area(area: Rect) -> (rect: Rect)
    ensures
        rect == surface(area),
{
    let horizontal: u16 = if area.width > 40 {
        OUTER_MARGIN_HORIZONTAL
    } else {
        0
    };
    let vertical: u16 = if area.height > 16 {
        OUTER_MARGIN_VERTICAL
    } else {
        0
    };
    inner(area, horizontal, vertical)
}

/// Whether a body of this width has an artwork column.
pub fn shows_artwork(body_width: u16) -> (yes: bool)
    ensures
        yes == (body_width >= ARTWORK_MIN_TOTAL),
{
    body_width >= ARTWORK_MIN_TOTAL
}

/// The cells that `pixels` fill, rounded up, at least one and at most
/// `max_cells`.
pub open spec fn cells_covering(pixels: int, cell_pixels: int, max_cells: int) -> int {
    smaller(larger((pixels + cell_pixels - 1) / cell_pixels, 1), max_cells)
}

/// Convert source pixels to enough terminal cells, capped to the available pane.
pub fn cells_for_pixels(pixels: u32, cell_pixels: u32, max_cells: u16) -> (cells: u16)
    requires
        cell_pixels > 0,
    ensures
        cells == cells_covering(pixels as int, cell_pixels as int, max_cells as int),
{
    let sum: u64 = pixels as u64 + (cell_pixels as u64 - 1);
    let whole: u64 = sum / cell_pixels as u64;
    let cells: u64 = if whole >= 1 {
        whole
    } else {
        1
    };
    if cells <= max_cells as u64 {
        cells as u16
    } else {
        max_cells
    }
}

/// The cell size assumed where the terminal reports none.
pub open spec fn font_or_default(font: Option<FontSize>) -> FontSize {
    match font {
        Some(font) => font,
        None => FontSize { width: 1, height: 2 },
    }
}

/// The cell rectangle, centered in `area`, of a square of pixels as large as
/// fits.
pub open spec fn centered_square(area: Rect, font: FontSize) -> Rect {
    let side = square_edge(area, font);
    let width = cells_covering(side, font.cell_width(), area.width as int);
    let height = cells_covering(side, font.cell_height(), area.height as int);
    Rect {
        x: (area.x + (area.width - width) / 2) as u16,
        y: (area.y + (area.height - height) / 2) as u16,
        width: width as u16,
        height: height as u16,
    }
}

/// Center a square-in-pixels image area inside a terminal-cell rectangle.
pub fn centered_album_art_area(area: Rect, font_size: Option<FontSize>) -> (rect: Rect)
    requires
        area.fits(),
    ensures
        area.width == 0 || area.height == 0 ==> rect == area,
        area.width > 0 && area.height > 0 ==> rect == centered_square(
            area,
            font_or_default(font_size),
        ),
        area.holds(rect),
{
    if area.width == 0 || area.height == 0 {
        return area;
    }
    let font: FontSize = match font_size {
        Some(font) => font,
        None => FontSize { width: 1, height: 2 },
    };
    let cell_width: u32 = if font.width >= 1 {
        font.width as u32
    } else {
        1
    };
    let cell_height: u32 = if font.height >= 1 {
        font.height as u32
    } else {
        1
    };
    let side: u32 = square_edge_px(area, font);
    let width: u16 = cells_for_pixels(side, cell_width, area.width);
    let height: u16 = cells_for_pixels(side, cell_height, area.height);
    Rect {
        x: area.x + (area.width - width) / 2,
        y: area.y + (area.height - height) / 2,
        width,
        height,
    }
}

/// The filled part of a progress bar: the played share of `width`, rounded
/// down; nothing without a duration, all of it past the end.
pub open spec fn filled(width: int, position_ms: int, duration_ms: int) -> int {
    if duration_ms == 0 {
        0
    } else {
        width * smaller(position_ms, duration_ms) / duration_ms
    }
}

/// Number of filled progress cells across `width` columns (integer math, so the
/// fill never truncates oddly and stays within `0..=width`).
pub fn progress_cells(width: u16, position_ms: u32, duration_ms: u32) -> (cells: u16)
    ensures
        cells == filled(width as int, position_ms as int, duration_ms as int),
        cells <= width,
{
    if duration_ms == 0 {
        return 0;
    }
    let position: u64 = if position_ms <= duration_ms {
        position_ms as u64
    } else {
        duration_ms as u64
    };
    proof {
        lemma_share_fits(width as int, position as int, duration_ms as int);
    }
    let cells: u64 = width as u64 * position / duration_ms as u64;
    cells as u16
}

/// A share of `width` is at most `width`.
proof fn lemma_share_fits(width: int, position: int, duration: int)
    requires
        0 <= width <= u16::MAX,
        0 <= position <= duration <= u32::MAX,
        duration > 0,
    ensures
        0 <= width * position <= u64::MAX,
        0 <= width * position / duration <= width,
{
    assert(0 <= width * position <= width * duration) by (nonlinear_arith)
        requires
            0 <= width,
            0 <= position <= duration,
    ;
    assert(width * duration <= 0xffff * 0xffff_ffff) by (nonlinear_arith)
        requires
            0 <= width <= 0xffff,
            0 < duration <= 0xffff_ffff,
    ;
    vstd::arithmetic::div_mod::lemma_div_is_ordered(width * position, width * duration, duration);
    vstd::arithmetic::div_mod::lemma_div_multiples_vanish(width, duration);
    vstd::arithmetic::mul::lemma_mul_is_commutative(width, duration);
    vstd::arithmetic::div_mod::lemma_div_pos_is_pos(width * position, duration);
}

/// The progress bar never shrinks as the track plays, and is full at its end.
pub proof fn progress_grows_to_full(width: int, earlier: int, later: int, duration: int)
    requires
        0 <= width,
        0 <= earlier <= later,
        0 < duration,
    ensures
        filled(width, earlier, duration) <= filled(width, later, duration),
        filled(width, 0, duration) == 0,
        filled(width, duration, duration) == width,
{
    let a = smaller(earlier, duration);
    let b = smaller(later, duration);
    assert(width * a <= width * b) by (nonlinear_arith)
        requires
            0 <= width,
            a <= b,
    ;
    vstd::arithmetic::div_mod::lemma_div_is_ordered(width * a, width * b, duration);
    vstd::arithmetic::div_mod::lemma_div_multiples_vanish(width, duration);
    vstd::arithmetic::mul::lemma_mul_is_commutative(width, duration);
    assert(width * 0 == 0);
    vstd::arithmetic::div_mod::lemma_div_basics(duration);
}

/// The popup area: at the bottom right, above the footer and help bars.
pub open spec fn popup_rect(area: Rect) -> Rect {
    let width = smaller(VOLUME_POPUP_WIDTH as int, area.width as int);
    let height = smaller(VOLUME_POPUP_HEIGHT as int, area.height as int);
    let gap: int = if area.width > width + 1 {
        1
    } else {
        0
    };
    let right = smaller(area.x + area.width, u16::MAX as int);
    let bottom = smaller(area.y + area.height, u16::MAX as int);
    Rect {
        x: larger(right - (width + gap), 0) as u16,
        y: larger(bottom - (height + 5), area.y as int) as u16,
        width: width as u16,
        height: height as u16,
    }
}

/// Bottom-right popup area, positioned above the persistent footer/help bars.
pub fn volume_popup_area(area: Rect) -> (rect: Rect)
    ensures
        rect == popup_rect(area),
{
    let width: u16 = if VOLUME_POPUP_WIDTH <= area.width {
        VOLUME_POPUP_WIDTH
    } else {
        area.width
    };
    let height: u16 = if VOLUME_POPUP_HEIGHT <= area.height {
        VOLUME_POPUP_HEIGHT
    } else {
        area.height
    };
    let right_gap: u16 = if area.width > width + 1 {
        1
    } else {
        0
    };
    let x: u16 = area.x.saturating_add(area.width).saturating_sub(width + right_gap);
    let above: u16 = area.y.saturating_add(area.height).saturating_sub(height + 5);
    let y: u16 = if above >= area.y {
        above
    } else {
        area.y
    };
    Rect { x, y, width, height }
}

/// How the volume popup shows.
#[derive(Debug, Clone, Copy, PartialEq, Eq, Structural)]
pub enum PopupState {
    /// Not at all.
    Hidden,
    /// In full color.
    Bright,
    /// Dimmed, about to go.
    Fading,
}

/// How a popup with this deadline shows at `now`, on a surface of this size:
/// not once the deadline has come nor on a small surface, dimmed over the last
/// [`VOLUME_FADE_MS`].
pub open spec fn popup_state(deadline: Option<Moment>, now: Moment, area: Rect) -> PopupState {
    match deadline {
        None => PopupState::Hidden,
        Some(deadline) => {
            let remaining = nanos_between(now, deadline);
            if remaining == 0 || area.width < 24 || area.height < 8 {
                PopupState::Hidden
            } else if remaining <= VOLUME_FADE_MS * 1_000_000 {
                PopupState::Fading
            } else {
                PopupState::Bright
            }
        },
    }
}

/// How the volume popup shows.
pub fn volume_popup_state(deadline: Option<Moment>, now: Moment, area: Rect) -> (state: PopupState)
    ensures
        state == popup_state(deadline, now, area),
{
    match deadline {
        None => PopupState::Hidden,
        Some(deadline) => {
            let remaining: u128 = deadline.nanos_since(now);
            if remaining == 0 || area.width < 24 || area.height < 8 {
                PopupState::Hidden
            } else if remaining <= VOLUME_FADE_MS as u128 * 1_000_000 {
                PopupState::Fading
            } else {
                PopupState::Bright
            }
        },
    }
}

} // verus!
