//! Geometry of the shared overlay chrome: every dialog is a bordered box
//! with a key bar, a blank row under it and one column of padding on each
//! side; the overlay's size is given as a percentage of the content pane, a
//! fixed size, or a fixed width with the height fitted to its body rows.

use vstd::prelude::*;

verus! {

/// A terminal rectangle.
#[derive(Debug, Clone, Copy, PartialEq, Eq, Structural)]
pub struct Rect {
    pub x: u16,
    pub y: u16,
    pub width: u16,
    pub height: u16,
}

impl Rect {
    /// A rectangle; the size is clamped so that its far edges stay within
    /// the coordinate range.
    pub fn new(x: u16, y: u16, width: u16, height: u16) -> (r: Rect)
        ensures
            r.x == x,
            r.y == y,
            r.width == min_u16(width, (u16::MAX - x) as u16),
            r.height == min_u16(height, (u16::MAX - y) as u16),
            r.normalized(),
    {
        let max_w = u16::MAX - x;
        let max_h = u16::MAX - y;
        Rect {
            x,
            y,
            width: if width <= max_w {
                width
            } else {
                max_w
            },
            height: if height <= max_h {
                height
            } else {
                max_h
            },
        }
    }

    /// Its far edges lie within the coordinate range.
    pub open spec fn normalized(self) -> bool {
        &&& self.x + self.width <= u16::MAX
        &&& self.y + self.height <= u16::MAX
    }

    /// `self` lies inside `outer`.
    pub open spec fn within(self, outer: Rect) -> bool {
        &&& outer.x <= self.x
        &&& outer.y <= self.y
        &&& self.x + self.width <= outer.x + outer.width
        &&& self.y + self.height <= outer.y + outer.height
    }
}

/// Rows the frame takes: top and bottom border, the key bar and the blank
/// row between the key bar and the body.
pub const OVERLAY_CHROME_ROWS: u16 = 4;

/// Columns the frame takes: left and right border and one column of body
/// padding on each side.
pub const OVERLAY_CHROME_COLS: u16 = 4;

pub open spec fn min_u16(a: u16, b: u16) -> u16 {
    if a <= b {
        a
    } else {
        b
    }
}

/// `a + b`, saturating at `u16::MAX`.
pub open spec fn sat_add_u16(a: u16, b: u16) -> u16 {
    if a + b <= u16::MAX {
        (a + b) as u16
    } else {
        u16::MAX
    }
}

/// A `width` × `height` box (each clamped to the area) centred in `area`.
pub open spec fn spec_centered_rect_fixed(width: u16, height: u16, area: Rect) -> Rect {
    let w = min_u16(width, area.width);
    let h = min_u16(height, area.height);
    Rect {
        x: sat_add_u16(area.x, ((area.width - w) / 2) as u16),
        y: sat_add_u16(area.y, ((area.height - h) / 2) as u16),
        width: w,
        height: h,
    }
}

/// A box `width` columns and `height` rows large (clamped to `area`),
/// centred in `area`.
pub fn centered_rect_fixed(width: u16, height: u16, area: Rect) -> (r: Rect)
    ensures
        r == spec_centered_rect_fixed(width, height, area),
        area.normalized() ==> r.within(area),
{
    let w = if width <= area.width {
        width
    } else {
        area.width
    };
    let h = if height <= area.height {
        height
    } else {
        area.height
    };
    Rect {
        x: area.x.saturating_add((area.width - w) / 2),
        y: area.y.saturating_add((area.height - h) / 2),
        width: w,
        height: h,
    }
}

/// `percent` % of `len` (a percentage above 100 counts as 100).
pub open spec fn percent_of(len: u16, percent: u16) -> u16 {
    let p = min_u16(percent, 100);
    ((len * p) / 100) as u16
}

/// A box `percent_x` % wide and `percent_y` % high, centred in `area`.
pub fn centered_rect(percent_x: u16, percent_y: u16, area: Rect) -> (r: Rect)
    ensures
        r == spec_centered_rect_fixed(
            percent_of(area.width, percent_x),
            percent_of(area.height, percent_y),
            area,
        ),
        area.normalized() ==> r.within(area),
{
    let px: u32 = if percent_x <= 100 {
        percent_x as u32
    } else {
        100
    };
    let py: u32 = if percent_y <= 100 {
        percent_y as u32
    } else {
        100
    };
    assert(area.width as u32 * px <= 0xffff * 100) by (nonlinear_arith)
        requires
            px <= 100,
            area.width <= 0xffff,
    ;
    assert(area.height as u32 * py <= 0xffff * 100) by (nonlinear_arith)
        requires
            py <= 100,
            area.height <= 0xffff,
    ;
    let w = (area.width as u32 * px / 100) as u16;
    let h = (area.height as u32 * py / 100) as u16;
    proof {
        assert((area.width as u32 * px / 100) <= area.width) by (nonlinear_arith)
            requires
                px <= 100,
        ;
        assert((area.height as u32 * py / 100) <= area.height) by (nonlinear_arith)
            requires
                py <= 100,
        ;
    }
    centered_rect_fixed(w, h, area)
}

/// How an overlay determines its rectangle within the content pane.
#[derive(Debug, Clone, Copy, PartialEq, Eq, Structural)]
pub enum OverlaySize {
    /// Percentage of the content pane; for large scrollable overlays.
    Percent(u16, u16),
    /// Fixed width and height, clamped to the pane.
    Fixed(u16, u16),
    /// Fixed width, height fitted to `body_rows` rows of content plus the
    /// chrome.
    FitRows { width: u16, body_rows: u16 },
}

pub open spec fn spec_resolve(size: OverlaySize, area: Rect) -> Rect {
    match size {
        OverlaySize::Percent(x, y) => spec_centered_rect_fixed(
            percent_of(area.width, x),
            percent_of(area.height, y),
            area,
        ),
        OverlaySize::Fixed(w, h) => spec_centered_rect_fixed(w, h, area),
        OverlaySize::FitRows { width, body_rows } => spec_centered_rect_fixed(
            width,
            min_u16(sat_add_u16(body_rows, OVERLAY_CHROME_ROWS), area.height),
            area,
        ),
    }
}

impl OverlaySize {
    /// The overlay's rectangle within the content pane.
    pub fn resolve(&self, content_area: Rect) -> (r: Rect)
        ensures
            r == spec_resolve(*self, content_area),
            content_area.normalized() ==> r.within(content_area),
    {
        match *self {
            OverlaySize::Percent(x, y) => centered_rect(x, y, content_area),
            OverlaySize::Fixed(width, height) => centered_rect_fixed(width, height, content_area),
            OverlaySize::FitRows { width, body_rows } => {
                let rows = body_rows.saturating_add(OVERLAY_CHROME_ROWS);
                let rows = if rows <= content_area.height {
                    rows
                } else {
                    content_area.height
                };
                centered_rect_fixed(width, rows, content_area)
            },
        }
    }
}

/// The body of an overlay drawn in `area`: inside the border, below the key
/// bar and the blank row, with one column of padding on each side. A box
/// too small for the chrome has an empty body at its corner.
pub open spec fn spec_overlay_body(area: Rect) -> Rect {
    if area.width < OVERLAY_CHROME_COLS || area.height < OVERLAY_CHROME_ROWS {
        Rect { x: area.x, y: area.y, width: 0, height: 0 }
    } else {
        Rect {
            x: sat_add_u16(area.x, 2),
            y: sat_add_u16(area.y, 3),
            width: (area.width - OVERLAY_CHROME_COLS) as u16,
            height: (area.height - OVERLAY_CHROME_ROWS) as u16,
        }
    }
}

pub fn overlay_body(area: Rect) -> (r: Rect)
    ensures
        r == spec_overlay_body(area),
        area.normalized() ==> r.within(area),
{
    if area.width < OVERLAY_CHROME_COLS || area.height < OVERLAY_CHROME_ROWS {
        Rect { x: area.x, y: area.y, width: 0, height: 0 }
    } else {
        Rect {
            x: area.x.saturating_add(2),
            y: area.y.saturating_add(3),
            width: area.width - OVERLAY_CHROME_COLS,
            height: area.height - OVERLAY_CHROME_ROWS,
        }
    }
}

/// A fitted overlay shows exactly its body rows when the pane has room for
/// them and the chrome, and never more rows than the pane has.
pub proof fn lemma_fit_rows_body(width: u16, body_rows: u16, area: Rect)
    requires
        area.normalized(),
    ensures
        spec_resolve(OverlaySize::FitRows { width, body_rows }, area).within(area),
        spec_resolve(OverlaySize::FitRows { width, body_rows }, area).width == min_u16(width, area.width),
        body_rows + OVERLAY_CHROME_ROWS <= area.height ==> spec_resolve(
            OverlaySize::FitRows { width, body_rows },
            area,
        ).height == body_rows + OVERLAY_CHROME_ROWS,
        body_rows + OVERLAY_CHROME_ROWS <= area.height && min_u16(width, area.width)
            >= OVERLAY_CHROME_COLS ==> spec_overlay_body(
            spec_resolve(OverlaySize::FitRows { width, body_rows }, area),
        ).height == body_rows,
{
}

/// The rows of `area` that `line_count` centred lines take: vertically
/// centred, full width, at most as tall as the area.
pub fn centered_lines_rect(area: Rect, line_count: u16) -> (r: Rect)
    ensures
        r.x == area.x,
        r.width == area.width,
        r.height == min_u16(line_count, area.height),
        r.y == sat_add_u16(
            area.y,
            (if area.height >= line_count {
                (area.height - line_count) / 2
            } else {
                0
            }) as u16,
        ),
        area.normalized() ==> r.within(area),
{
    let free = area.height.saturating_sub(line_count);
    let height = if line_count <= area.height {
        line_count
    } else {
        area.height
    };
    Rect { x: area.x, y: area.y.saturating_add(free / 2), width: area.width, height }
}

} // verus!
