//! Cell and pixel geometry of the terminal image widgets: the transmitted
//! size of a chart image and the centred square of the compass.

use vstd::prelude::*;

verus! {

/// Longest-side pixel cap for a transmitted chart image; the terminal scales
/// it up to fill the panel's cell box.
pub const CHART_MAX_DIM: u32 = 800;

/// A rectangle of terminal cells.
#[derive(Clone, Copy, Debug, PartialEq, Eq, Structural)]
pub struct CellRect {
    /// Left column.
    pub x: u16,
    /// Top row.
    pub y: u16,
    /// Width in cells.
    pub width: u16,
    /// Height in rows.
    pub height: u16,
}

/// `a * b` saturated at `u32::MAX`.
pub open spec fn sat_mul(a: int, b: int) -> int {
    if a * b > u32::MAX {
        u32::MAX as int
    } else {
        a * b
    }
}

/// `a + b` saturated at `u16::MAX`.
pub open spec fn sat_add16(a: int, b: int) -> int {
    if a + b > u16::MAX {
        u16::MAX as int
    } else {
        a + b
    }
}

/// `a * b` for `u32`, saturating.
fn mul_sat(a: u32, b: u32) -> (r: u32)
    ensures
        r == sat_mul(a as int, b as int),
{
    if b != 0 && a > u32::MAX / b {
        assert(a * b > u32::MAX) by (nonlinear_arith)
            requires
                b != 0,
                a > u32::MAX / b,
        ;
        u32::MAX
    } else {
        assert(a * b <= u32::MAX) by (nonlinear_arith)
            requires
                b == 0 || a <= u32::MAX / b,
        ;
        a * b
    }
}

/// One side of a chart image scaled down so the longest side is at most the
/// cap: `side * CHART_MAX_DIM / longest` (saturating), at least 1.
pub open spec fn scaled_side(side: int, longest: int) -> int {
    let q = sat_mul(side, CHART_MAX_DIM as int) / longest;
    if q < 1 {
        1
    } else {
        q
    }
}

/// The pixel size of a chart image for a panel of `cols` × `rows` cells with
/// the given font cell size: the panel's pixel size, scaled down (keeping its
/// aspect) when its longest side exceeds [`CHART_MAX_DIM`].
pub open spec fn chart_size_spec(cols: u16, rows: u16, font_w: u16, font_h: u16) -> (int, int) {
    let w = sat_mul(cols as int, font_w as int);
    let h = sat_mul(rows as int, font_h as int);
    let longest = if w >= h && w >= 1 {
        w
    } else if h >= 1 {
        h
    } else {
        1
    };
    if longest > CHART_MAX_DIM {
        (scaled_side(w, longest), scaled_side(h, longest))
    } else {
        (w, h)
    }
}

/// Pixel size at which a chart is rasterised for a panel of `cols` × `rows`
/// cells.
pub fn chart_transmit_size(cols: u16, rows: u16, font_w: u16, font_h: u16) -> (r: (u32, u32))
    ensures
        (r.0 as int, r.1 as int) == chart_size_spec(cols, rows, font_w, font_h),
{
    let raw_w = mul_sat(cols as u32, font_w as u32);
    let raw_h = mul_sat(rows as u32, font_h as u32);
    let mut longest = if raw_w >= raw_h { raw_w } else { raw_h };
    if longest < 1 {
        longest = 1;
    }
    if longest > CHART_MAX_DIM {
        let mut w = mul_sat(raw_w, CHART_MAX_DIM) / longest;
        if w < 1 {
            w = 1;
        }
        let mut h = mul_sat(raw_h, CHART_MAX_DIM) / longest;
        if h < 1 {
            h = 1;
        }
        (w, h)
    } else {
        (raw_w, raw_h)
    }
}

/// When no product saturates, the transmitted chart keeps both sides within
/// the cap.
pub proof fn lemma_chart_size_capped(cols: u16, rows: u16, font_w: u16, font_h: u16)
    requires
        cols as int * font_w as int * (CHART_MAX_DIM as int) <= u32::MAX,
        rows as int * font_h as int * (CHART_MAX_DIM as int) <= u32::MAX,
    ensures
        chart_size_spec(cols, rows, font_w, font_h).0 <= CHART_MAX_DIM,
        chart_size_spec(cols, rows, font_w, font_h).1 <= CHART_MAX_DIM,
{
    let w = cols as int * font_w as int;
    let h = rows as int * font_h as int;
    assert(0 <= w && 0 <= h) by (nonlinear_arith)
        requires
            w == cols as int * font_w as int,
            h == rows as int * font_h as int,
    ;
    assert(w * 800 <= u32::MAX && h * 800 <= u32::MAX);
    assert(sat_mul(cols as int, font_w as int) == w);
    assert(sat_mul(rows as int, font_h as int) == h);
    let longest = if w >= h && w >= 1 {
        w
    } else if h >= 1 {
        h
    } else {
        1
    };
    if longest > 800 {
        assert(sat_mul(w, 800) == w * 800);
        assert(sat_mul(h, 800) == h * 800);
        assert((w * 800) / longest <= 800) by (nonlinear_arith)
            requires
                0 <= w <= longest,
                longest > 800,
        ;
        assert((h * 800) / longest <= 800) by (nonlinear_arith)
            requires
                0 <= h <= longest,
                longest > 800,
        ;
    }
}

/// The square compass footprint in cells: the panel's smaller pixel side
/// divided by the font cell size, clamped into the panel.
pub open spec fn footprint(size: int, font: int, side: int) -> int {
    let cells = size / (if font < 1 {
        1
    } else {
        font
    });
    let c = if cells > u16::MAX {
        side
    } else {
        cells
    };
    if c < 1 {
        1
    } else if c > side {
        side
    } else {
        c
    }
}

/// The square (in pixels) drawn for the compass, and its cell rectangle,
/// centred in `area`.
pub open spec fn compass_target_spec(area: CellRect, font_w: u16, font_h: u16) -> CellRect {
    let size = if sat_mul(area.width as int, font_w as int) <= sat_mul(
        area.height as int,
        font_h as int,
    ) {
        sat_mul(area.width as int, font_w as int)
    } else {
        sat_mul(area.height as int, font_h as int)
    };
    let cw = footprint(size, font_w as int, area.width as int);
    let ch = footprint(size, font_h as int, area.height as int);
    CellRect {
        x: sat_add16(area.x as int, (area.width - cw) / 2) as u16,
        y: sat_add16(area.y as int, (area.height - ch) / 2) as u16,
        width: cw as u16,
        height: ch as u16,
    }
}

/// The side in pixels of the square compass image for `area`.
pub fn compass_size_px(area: CellRect, font_w: u16, font_h: u16) -> (s: u32)
    ensures
        s == if sat_mul(area.width as int, font_w as int) <= sat_mul(
            area.height as int,
            font_h as int,
        ) {
            sat_mul(area.width as int, font_w as int)
        } else {
            sat_mul(area.height as int, font_h as int)
        },
{
    let w_px = mul_sat(area.width as u32, font_w as u32);
    let h_px = mul_sat(area.height as u32, font_h as u32);
    if w_px <= h_px {
        w_px
    } else {
        h_px
    }
}

/// The cells of the square compass dial, centred in a non-empty `area`.
pub fn compass_target_rect(area: CellRect, font_w: u16, font_h: u16) -> (t: CellRect)
    requires
        area.width >= 1,
        area.height >= 1,
    ensures
        t == compass_target_spec(area, font_w, font_h),
{
    let size = compass_size_px(area, font_w, font_h);
    let fw: u32 = if font_w < 1 { 1 } else { font_w as u32 };
    let fh: u32 = if font_h < 1 { 1 } else { font_h as u32 };
    let cw = clamp_cells(size / fw, area.width);
    let ch = clamp_cells(size / fh, area.height);
    let dx = (area.width - cw) / 2;
    let dy = (area.height - ch) / 2;
    let x = if area.x as u32 + dx as u32 > u16::MAX as u32 {
        u16::MAX
    } else {
        area.x + dx
    };
    let y = if area.y as u32 + dy as u32 > u16::MAX as u32 {
        u16::MAX
    } else {
        area.y + dy
    };
    CellRect { x, y, width: cw, height: ch }
}

/// A cell count converted to `u16` (the panel side when it does not fit)
/// and clamped into `[1, side]`.
fn clamp_cells(cells: u32, side: u16) -> (c: u16)
    requires
        side >= 1,
    ensures
        c == footprint_clamp(cells as int, side as int),
{
    let c: u16 = if cells > u16::MAX as u32 { side } else { cells as u16 };
    if c < 1 {
        1
    } else if c > side {
        side
    } else {
        c
    }
}

/// The clamping step of [`footprint`].
pub open spec fn footprint_clamp(cells: int, side: int) -> int {
    let c = if cells > u16::MAX {
        side
    } else {
        cells
    };
    if c < 1 {
        1
    } else if c > side {
        side
    } else {
        c
    }
}

/// The compass square always lies inside its non-empty panel (when the panel
/// does not touch the end of the cell grid) and is centred in it.
pub proof fn lemma_compass_target_inside(area: CellRect, font_w: u16, font_h: u16)
    requires
        area.width >= 1,
        area.height >= 1,
        area.x + area.width <= u16::MAX,
        area.y + area.height <= u16::MAX,
    ensures
        ({
            let t = compass_target_spec(area, font_w, font_h);
            &&& 1 <= t.width <= area.width
            &&& 1 <= t.height <= area.height
            &&& area.x <= t.x
            &&& t.x + t.width <= area.x + area.width
            &&& area.y <= t.y
            &&& t.y + t.height <= area.y + area.height
            &&& (t.x - area.x) * 2 <= area.width - t.width
            &&& (t.y - area.y) * 2 <= area.height - t.height
        }),
{
}

/// `font`, or 1 for a zero font size.
pub open spec fn font_or_one(font: u16) -> int {
    if font < 1 {
        1
    } else {
        font as int
    }
}

/// The clamped cell count of a footprint is the number of whole font cells
/// that fit in the square's side, clamped into `[1, side]`.
proof fn lemma_footprint_fits(size: int, font: u16, side: int)
    requires
        size >= 0,
        1 <= side <= u16::MAX,
    ensures
        ({
            let t = footprint(size, font as int, side);
            let f = font_or_one(font);
            &&& 1 <= t <= side
            &&& t == 1 || t * f <= size
            &&& t == side || size < (t + 1) * f
        }),
{
    let f = font_or_one(font);
    let c = size / f;
    assert(c * f <= size && size < (c + 1) * f) by (nonlinear_arith)
        requires
            f >= 1,
            size >= 0,
            c == size / f,
    ;
    let t = footprint(size, font as int, side);
    if t != c && t != 1 && t != side {
        assert(false);
    }
    if t == side && side < c {
        assert(side * f <= c * f) by (nonlinear_arith)
            requires
                side < c,
                f >= 1,
        ;
    }
    if t == 1 && c < 1 {
        assert(c == 0);
    }
}

/// The compass dial is the largest square of whole cells that fits the
/// panel's square side in pixels: its width counts the font widths and its
/// height the font heights that fit in the side (the smaller of the panel's
/// pixel width and height), each at least 1 and at most the panel's extent.
/// So away from clamping `t.width * font_w` and `t.height * font_h` both
/// approximate the same side, and the dial is not stretched.
pub proof fn lemma_compass_dial_is_square(area: CellRect, font_w: u16, font_h: u16)
    requires
        area.width >= 1,
        area.height >= 1,
    ensures
        ({
            let t = compass_target_spec(area, font_w, font_h);
            let w_px = sat_mul(area.width as int, font_w as int);
            let h_px = sat_mul(area.height as int, font_h as int);
            let side = if w_px < h_px { w_px } else { h_px };
            let fw = font_or_one(font_w);
            let fh = font_or_one(font_h);
            &&& 1 <= t.width <= area.width
            &&& 1 <= t.height <= area.height
            &&& t.width == 1 || t.width * fw <= side
            &&& t.width == area.width || side < (t.width + 1) * fw
            &&& t.height == 1 || t.height * fh <= side
            &&& t.height == area.height || side < (t.height + 1) * fh
        }),
{
    let w_px = sat_mul(area.width as int, font_w as int);
    let h_px = sat_mul(area.height as int, font_h as int);
    assert(w_px >= 0 && h_px >= 0) by (nonlinear_arith)
        requires
            w_px == sat_mul(area.width as int, font_w as int),
            h_px == sat_mul(area.height as int, font_h as int),
            area.width >= 0,
            font_w >= 0,
            area.height >= 0,
            font_h >= 0,
    ;
    let side = if w_px <= h_px { w_px } else { h_px };
    lemma_footprint_fits(side, font_w, area.width as int);
    lemma_footprint_fits(side, font_h, area.height as int);
}

} // verus!
