//! Pixel helpers of the terminal painter: packed colors, the cursor column,
//! rectangle fills and outlines in an RGBA sprite, and glyph coverage copies.

use vstd::prelude::*;

verus! {

/// The only character of `s`, when it has exactly one.
pub fn only_char(s: &str) -> (r: Option<char>)
    ensures
        r == (if s@.len() == 1 {
            Some(s@[0])
        } else {
            None
        }),
{
    let mut it = s.chars();
    let first = it.next();
    match first {
        None => {
            proof {
                vstd::string::axiom_spec_iter(s);
            }
            assert(s@.len() == 0);
            None
        },
        Some(c) => {
            let second = it.next();
            if second.is_some() {
                None
            } else {
                Some(c)
            }
        },
    }
}

pub open spec fn spec_pack_rgb(r: u8, g: u8, b: u8) -> u32 {
    ((r as u32) * 0x10000 + (g as u32) * 0x100 + b as u32) as u32
}

/// `0x00RRGGBB`.
pub fn pack_rgb(r: u8, g: u8, b: u8) -> (c: u32)
    ensures
        c == spec_pack_rgb(r, g, b),
{
    (r as u32) * 0x10000 + (g as u32) * 0x100 + b as u32
}

pub open spec fn spec_unpack_rgb(color: u32) -> (u8, u8, u8) {
    (((color >> 16u32) & 0xffu32) as u8, ((color >> 8u32) & 0xffu32) as u8, (color & 0xffu32) as u8)
}

/// Red, green and blue of `0x..RRGGBB` (the top byte is ignored).
pub fn unpack_rgb(color: u32) -> (r: (u8, u8, u8))
    ensures
        r == spec_unpack_rgb(color),
{
    (((color >> 16u32) & 0xffu32) as u8, ((color >> 8u32) & 0xffu32) as u8, (color & 0xffu32) as u8)
}

/// Unpacking a packed color gives its channels back; packing the channels
/// of a color gives the color without its top byte.
pub proof fn lemma_pack_unpack(r: u8, g: u8, b: u8, color: u32)
    ensures
        spec_unpack_rgb(spec_pack_rgb(r, g, b)) == (r, g, b),
        ({
            let (r2, g2, b2) = spec_unpack_rgb(color);
            spec_pack_rgb(r2, g2, b2) == color & 0x00ff_ffffu32
        }),
{
    assert(((((r as u32) * 0x10000 + (g as u32) * 0x100 + b as u32) as u32 >> 16u32) & 0xffu32) as u8 == r
        && ((((r as u32) * 0x10000 + (g as u32) * 0x100 + b as u32) as u32 >> 8u32) & 0xffu32) as u8 == g
        && ((((r as u32) * 0x10000 + (g as u32) * 0x100 + b as u32) as u32) & 0xffu32) as u8 == b)
        by (bit_vector);
    assert(((((((color >> 16u32) & 0xffu32) as u8) as u32) * 0x10000 + ((((color >> 8u32) & 0xffu32)
        as u8) as u32) * 0x100 + (((color & 0xffu32) as u8) as u32)) as u32) == color & 0x00ff_ffffu32)
        by (bit_vector);
}

/// The cursor column to paint: only when it lies inside the `cols` columns.
pub fn cursor_block_col(cursor_col: Option<usize>, cols: usize) -> (r: Option<usize>)
    ensures
        r == (match cursor_col {
            Some(c) => if c < cols {
                Some(c)
            } else {
                None
            },
            None => None,
        }),
{
    match cursor_col {
        Some(c) => if c < cols {
            Some(c)
        } else {
            None
        },
        None => None,
    }
}

/// `x + w` saturated at the bounds of `i32`.
pub open spec fn sat_add_i32(x: i32, w: u32) -> i32 {
    if x + w > i32::MAX {
        i32::MAX
    } else {
        (x + w) as i32
    }
}

fn saturating_add_unsigned_i32(x: i32, w: u32) -> (r: i32)
    ensures
        r == sat_add_i32(x, w),
{
    let s = x as i64 + w as i64;
    if s > i32::MAX as i64 {
        i32::MAX
    } else {
        s as i32
    }
}

/// The columns `[x0, x1)` and rows `[y0, y1)` that a fill of `(x, y, w, h)`
/// covers in an image of `img_w` by `img_h`: the start is clamped at 0, and
/// the end is the saturated sum read as unsigned, clamped to the image.
pub open spec fn fill_bounds(img_w: u32, img_h: u32, x: i32, y: i32, w: u32, h: u32) -> (int, int, int, int) {
    let x0: int = if x < 0 {
        0
    } else {
        x as int
    };
    let y0: int = if y < 0 {
        0
    } else {
        y as int
    };
    let xe = sat_add_i32(x, w) as u32;
    let ye = sat_add_i32(y, h) as u32;
    let x1: int = if xe < img_w {
        xe as int
    } else {
        img_w as int
    };
    let y1: int = if ye < img_h {
        ye as int
    } else {
        img_h as int
    };
    (x0, x1, y0, y1)
}

/// Byte `i` of a row-major RGBA image of width `img_w` lies in the fill.
pub open spec fn in_fill(i: int, img_w: u32, img_h: u32, x: i32, y: i32, w: u32, h: u32) -> bool {
    let (x0, x1, y0, y1) = fill_bounds(img_w, img_h, x, y, w, h);
    let px = (i / 4) % (img_w as int);
    let py = (i / 4) / (img_w as int);
    &&& w != 0
    &&& h != 0
    &&& img_w != 0
    &&& x0 <= px < x1
    &&& y0 <= py < y1
}

/// The image after filling `(x, y, w, h)` with `rgba`.
pub open spec fn filled(
    pixels: Seq<u8>,
    img_w: u32,
    img_h: u32,
    x: i32,
    y: i32,
    w: u32,
    h: u32,
    rgba: (u8, u8, u8, u8),
) -> Seq<u8> {
    Seq::new(
        pixels.len(),
        |i: int|
            if in_fill(i, img_w, img_h, x, y, w, h) {
                if i % 4 == 0 {
                    rgba.0
                } else if i % 4 == 1 {
                    rgba.1
                } else if i % 4 == 2 {
                    rgba.2
                } else {
                    rgba.3
                }
            } else {
                pixels[i]
            },
    )
}

/// Fill `(x, y, w, h)`, clipped to the image, with one RGBA color.
pub fn fill_rect(
    pixels: &mut Vec<u8>,
    img_w: u32,
    img_h: u32,
    x: i32,
    y: i32,
    w: u32,
    h: u32,
    r: u8,
    g: u8,
    b: u8,
    a: u8,
)
    requires
        old(pixels)@.len() == img_w as int * img_h as int * 4,
        img_w as int * img_h as int * 4 <= u32::MAX,
    ensures
        final(pixels)@ == filled(old(pixels)@, img_w, img_h, x, y, w, h, (r, g, b, a)),
{
    let ghost p0 = pixels@;
    if w == 0 || h == 0 {
        assert(pixels@ =~= filled(p0, img_w, img_h, x, y, w, h, (r, g, b, a)));
        return;
    }
    let x0: u32 = if x < 0 {
        0
    } else {
        x as u32
    };
    let y0: u32 = if y < 0 {
        0
    } else {
        y as u32
    };
    let xe = saturating_add_unsigned_i32(x, w) as u32;
    let ye = saturating_add_unsigned_i32(y, h) as u32;
    let x1 = if xe < img_w {
        xe
    } else {
        img_w
    };
    let y1 = if ye < img_h {
        ye
    } else {
        img_h
    };
    assert(fill_bounds(img_w, img_h, x, y, w, h) == (x0 as int, x1 as int, y0 as int, y1 as int));
    let mut py = y0;
    while py < y1
        invariant
            pixels@.len() == p0.len(),
            p0.len() == img_w as int * img_h as int * 4,
            img_w as int * img_h as int * 4 <= u32::MAX,
            fill_bounds(img_w, img_h, x, y, w, h) == (x0 as int, x1 as int, y0 as int, y1 as int),
            w != 0,
            h != 0,
            x1 <= img_w,
            y1 <= img_h,
            y0 <= py,
            py <= y1 || y0 > y1,
            forall|i: int|
                0 <= i < p0.len() ==> #[trigger] pixels@[i] == if in_fill(i, img_w, img_h, x, y, w, h)
                    && (i / 4) / (img_w as int) < py {
                    filled(p0, img_w, img_h, x, y, w, h, (r, g, b, a))[i]
                } else {
                    p0[i]
                },
        decreases y1 - py,
    {
        let mut px = x0;
        while px < x1
            invariant
                pixels@.len() == p0.len(),
                p0.len() == img_w as int * img_h as int * 4,
                img_w as int * img_h as int * 4 <= u32::MAX,
                fill_bounds(img_w, img_h, x, y, w, h) == (x0 as int, x1 as int, y0 as int, y1 as int),
                w != 0,
                h != 0,
                x1 <= img_w,
                y1 <= img_h,
                y0 <= py < y1,
                x0 <= px,
                px <= x1 || x0 > x1,
                forall|i: int|
                    0 <= i < p0.len() ==> #[trigger] pixels@[i] == if in_fill(i, img_w, img_h, x, y, w, h)
                        && ((i / 4) / (img_w as int) < py || ((i / 4) / (img_w as int) == py && (i / 4)
                        % (img_w as int) < px)) {
                        filled(p0, img_w, img_h, x, y, w, h, (r, g, b, a))[i]
                    } else {
                        p0[i]
                    },
            decreases x1 - px,
        {
            proof {
                assert(py < img_h && px < img_w);
                assert(py * img_w + px < img_w * img_h) by (nonlinear_arith)
                    requires
                        py < img_h,
                        px < img_w,
                ;
            }
            let base = (py * img_w + px) * 4;
            let i = base as usize;
            proof {
                assert forall|k: int| 0 <= k < 4 implies (i + k) / 4 == py * img_w + px && #[trigger] ((i
                    + k) % 4) == k by {
                    assert((i + k) / 4 == py * img_w + px) by (nonlinear_arith)
                        requires
                            i == (py * img_w + px) * 4,
                            0 <= k < 4,
                    ;
                }
                assert((py * img_w + px) / (img_w as int) == py && (py * img_w + px) % (img_w as int) == px)
                    by (nonlinear_arith)
                    requires
                        px < img_w,
                ;
            }
            pixels.set(i, r);
            pixels.set(i + 1, g);
            pixels.set(i + 2, b);
            pixels.set(i + 3, a);
            px += 1;
            proof {
                assert forall|j: int| 0 <= j < p0.len() implies #[trigger] pixels@[j] == if in_fill(
                    j,
                    img_w,
                    img_h,
                    x,
                    y,
                    w,
                    h,
                ) && ((j / 4) / (img_w as int) < py || ((j / 4) / (img_w as int) == py && (j / 4) % (
                img_w as int) < px)) {
                    filled(p0, img_w, img_h, x, y, w, h, (r, g, b, a))[j]
                } else {
                    p0[j]
                } by {
                    if i <= j < i + 4 {
                        assert((j - i) % 4 == j - i);
                        assert(j / 4 == py * img_w + px - 1);
                    } else {
                        assert(j / 4 != py * img_w + px - 1) by (nonlinear_arith)
                            requires
                                i == (py * img_w + px - 1) * 4,
                                !(i <= j < i + 4),
                                0 <= j,
                        ;
                        assert(j / 4 == (j / 4) / (img_w as int) * (img_w as int) + (j / 4) % (
                        img_w as int)) by (nonlinear_arith)
                            requires
                                img_w > 0,
                                j >= 0,
                        ;
                    }
                }
            }
        }
        py += 1;
        proof {
            assert forall|j: int| 0 <= j < p0.len() implies #[trigger] pixels@[j] == if in_fill(
                j,
                img_w,
                img_h,
                x,
                y,
                w,
                h,
            ) && (j / 4) / (img_w as int) < py {
                filled(p0, img_w, img_h, x, y, w, h, (r, g, b, a))[j]
            } else {
                p0[j]
            } by {
            }
        }
    }
    assert(pixels@ =~= filled(p0, img_w, img_h, x, y, w, h, (r, g, b, a)));
}

/// The image after outlining `(x, y, w, h)` one pixel thick: top edge,
/// bottom edge, left edge, then right edge.
pub open spec fn stroked(
    pixels: Seq<u8>,
    img_w: u32,
    img_h: u32,
    x: i32,
    y: i32,
    w: u32,
    h: u32,
    rgb: (u8, u8, u8),
) -> Seq<u8> {
    if w == 0 || h == 0 {
        pixels
    } else {
        let c = (rgb.0, rgb.1, rgb.2, 255u8);
        let top = filled(pixels, img_w, img_h, x, y, w, 1, c);
        let bottom = filled(top, img_w, img_h, x, sat_add_i32(y, (h - 1) as u32), w, 1, c);
        let left = filled(bottom, img_w, img_h, x, y, 1, h, c);
        filled(left, img_w, img_h, sat_add_i32(x, (w - 1) as u32), y, 1, h, c)
    }
}

/// One-pixel outline of `(x, y, w, h)`, clipped to the image, opaque.
pub fn stroke_rect(
    pixels: &mut Vec<u8>,
    img_w: u32,
    img_h: u32,
    x: i32,
    y: i32,
    w: u32,
    h: u32,
    r: u8,
    g: u8,
    b: u8,
)
    requires
        old(pixels)@.len() == img_w as int * img_h as int * 4,
        img_w as int * img_h as int * 4 <= u32::MAX,
    ensures
        final(pixels)@ == stroked(old(pixels)@, img_w, img_h, x, y, w, h, (r, g, b)),
{
    if w == 0 || h == 0 {
        return;
    }
    fill_rect(pixels, img_w, img_h, x, y, w, 1, r, g, b, 255);
    let y_bottom = saturating_add_unsigned_i32(y, h - 1);
    fill_rect(pixels, img_w, img_h, x, y_bottom, w, 1, r, g, b, 255);
    fill_rect(pixels, img_w, img_h, x, y, 1, h, r, g, b, 255);
    let x_right = saturating_add_unsigned_i32(x, w - 1);
    fill_rect(pixels, img_w, img_h, x_right, y, 1, h, r, g, b, 255);
}

/// A glyph raster of `width` by `height` RGBA pixels copied into a buffer of
/// at least one pixel: each source row that `data` holds in full is copied,
/// everything else is zero.
pub open spec fn coverage(width: usize, height: usize, data: Seq<u8>) -> Seq<u8> {
    let w: int = if width < 1 {
        1
    } else {
        width as int
    };
    let h: int = if height < 1 {
        1
    } else {
        height as int
    };
    Seq::new(
        (w * h * 4) as nat,
        |i: int|
            if width > 0 && height > 0 && (i / (w * 4) + 1) * (w * 4) <= data.len() {
                data[i]
            } else {
                0u8
            },
    )
}

/// Copy a glyph raster into a fresh buffer of at least one pixel.
pub fn glyph_coverage(width: usize, height: usize, data: &[u8]) -> (r: Vec<u8>)
    requires
        (if width < 1 {
            1
        } else {
            width as int
        }) * (if height < 1 {
            1
        } else {
            height as int
        }) * 4 <= usize::MAX,
    ensures
        r@ == coverage(width, height, data@),
{
    let w: usize = if width < 1 {
        1
    } else {
        width
    };
    let h: usize = if height < 1 {
        1
    } else {
        height
    };
    proof {
        assert(w * h * 4 <= usize::MAX);
        assert(w * 4 <= w * h * 4) by (nonlinear_arith)
            requires
                h >= 1,
        ;
    }
    let total = w * h * 4;
    let mut pixels: Vec<u8> = Vec::new();
    let mut k: usize = 0;
    while k < total
        invariant
            pixels@.len() == k,
            k <= total,
            forall|j: int| 0 <= j < k ==> pixels@[j] == 0u8,
        decreases total - k,
    {
        pixels.push(0u8);
        k += 1;
    }
    if width > 0 && height > 0 {
        let row_bytes = width * 4;
        let mut gy: usize = 0;
        while gy < height
            invariant
                w == width,
                h == height,
                row_bytes == w * 4,
                total == w * h * 4,
                pixels@.len() == total,
                gy <= height,
                width > 0,
                height > 0,
                forall|i: int|
                    0 <= i < total ==> #[trigger] pixels@[i] == if i / (w * 4) < gy && (i / (w * 4) + 1)
                        * (w * 4) <= data@.len() {
                        data@[i]
                    } else {
                        0u8
                    },
            decreases height - gy,
        {
            proof {
                assert(gy * row_bytes + row_bytes <= total) by (nonlinear_arith)
                    requires
                        gy < h,
                        row_bytes == w * 4,
                        total == w * h * 4,
                ;
            }
            let src = gy * row_bytes;
            let dst = src;
            let n = row_bytes;
            if src + n <= data.len() {
                let mut b: usize = 0;
                while b < n
                    invariant
                        w == width,
                        h == height,
                        row_bytes == w * 4,
                        n == row_bytes,
                        total == w * h * 4,
                        pixels@.len() == total,
                        gy < height,
                        src == gy * row_bytes,
                        dst == src,
                        src + n <= data@.len(),
                        src + n <= total,
                        b <= n,
                        width > 0,
                        forall|i: int|
                            0 <= i < total ==> #[trigger] pixels@[i] == if (i / (w * 4) < gy && (i / (
                            w * 4) + 1) * (w * 4) <= data@.len()) || (src <= i < src + b) {
                                data@[i]
                            } else {
                                0u8
                            },
                    decreases n - b,
                {
                    pixels.set(dst + b, data[src + b]);
                    b += 1;
                }
            }
            gy += 1;
            proof {
                assert forall|i: int| 0 <= i < total implies #[trigger] pixels@[i] == if i / (w * 4) < gy
                    && (i / (w * 4) + 1) * (w * 4) <= data@.len() {
                    data@[i]
                } else {
                    0u8
                } by {
                    let row = i / (w * 4);
                    assert(row * (w * 4) <= i < (row + 1) * (w * 4)) by (nonlinear_arith)
                        requires
                            row == i / (w * 4),
                            w > 0,
                            i >= 0,
                    ;
                    if row == gy - 1 {
                        assert(src == row * (w * 4));
                        assert((row + 1) * (w * 4) == src + n) by (nonlinear_arith)
                            requires
                                src == row * (w * 4),
                                n == w * 4,
                        ;
                    } else if row < gy - 1 {
                        assert((row + 1) * (w * 4) <= src) by (nonlinear_arith)
                            requires
                                row + 1 <= gy - 1,
                                src == (gy - 1) * (w * 4),
                                w > 0,
                        ;
                    } else {
                        assert(src + n <= row * (w * 4)) by (nonlinear_arith)
                            requires
                                row >= gy,
                                src == (gy - 1) * (w * 4),
                                n == w * 4,
                                w > 0,
                        ;
                    }
                }
            }
        }
        proof {
            assert forall|i: int| 0 <= i < total implies #[trigger] pixels@[i] == coverage(
                width,
                height,
                data@,
            )[i] by {
                assert(i / (w * 4) < h) by (nonlinear_arith)
                    requires
                        0 <= i < w * h * 4,
                        w > 0,
                ;
            }
        }
    }
    assert(pixels@ =~= coverage(width, height, data@));
    pixels
}

/// The selected columns `[start, end)` of a row from the painter's
/// selection markers: none when `sel_start` is the no-selection marker
/// `u16::MAX`, or when the span is empty once its end is clipped to `cols`.
pub open spec fn spec_selected_span(sel_start: u16, sel_end: u16, cols: usize) -> Option<(usize, usize)> {
    let end: usize = if (sel_end as usize) < cols {
        sel_end as usize
    } else {
        cols
    };
    if sel_start != u16::MAX && end > sel_start as usize {
        Some((sel_start as usize, end))
    } else {
        None
    }
}

pub fn selected_span(sel_start: u16, sel_end: u16, cols: usize) -> (r: Option<(usize, usize)>)
    ensures
        r == spec_selected_span(sel_start, sel_end, cols),
{
    let start = sel_start as usize;
    let end: usize = if (sel_end as usize) < cols {
        sel_end as usize
    } else {
        cols
    };
    if sel_start != u16::MAX && end > start {
        Some((start, end))
    } else {
        None
    }
}

/// Where a cell's background color comes from.
#[derive(Debug, Clone, Copy, PartialEq, Eq, Structural)]
pub enum CellBg {
    /// The cell's own background.
    Background,
    /// The cell's foreground (reverse video).
    Foreground,
    /// The selection color.
    Selection,
    /// The cursor color.
    Cursor,
}

/// The background of cell `col`: the cursor color under a focused cursor,
/// else the selection color inside the selection, else the foreground for
/// reverse video, else the cell's own background.
pub open spec fn spec_cell_background(
    col: usize,
    focused: bool,
    cursor_col: Option<usize>,
    selection: Option<(usize, usize)>,
    reverse: bool,
) -> CellBg {
    if focused && cursor_col == Some(col) {
        CellBg::Cursor
    } else if selection matches Some((s, e)) && s <= col < e {
        CellBg::Selection
    } else if reverse {
        CellBg::Foreground
    } else {
        CellBg::Background
    }
}

pub fn cell_background(
    col: usize,
    focused: bool,
    cursor_col: Option<usize>,
    selection: Option<(usize, usize)>,
    reverse: bool,
) -> (r: CellBg)
    ensures
        r == spec_cell_background(col, focused, cursor_col, selection, reverse),
{
    let is_cursor = focused && match cursor_col {
        Some(c) => c == col,
        None => false,
    };
    let selected = match selection {
        Some((s, e)) => s <= col && col < e,
        None => false,
    };
    if is_cursor {
        CellBg::Cursor
    } else if selected {
        CellBg::Selection
    } else if reverse {
        CellBg::Foreground
    } else {
        CellBg::Background
    }
}

/// Whether a cell's background of packed color `color` is painted over the
/// pane background `pane_bg`: always under the cursor or the selection,
/// otherwise only when it differs from the pane background.
pub fn fills_cell_background(color: u32, pane_bg: u32, bg: CellBg) -> (r: bool)
    ensures
        r == (color != pane_bg || bg == CellBg::Cursor || bg == CellBg::Selection),
{
    color != pane_bg || bg == CellBg::Cursor || bg == CellBg::Selection
}

} // verus!
