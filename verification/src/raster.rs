//! The moon rasterizer.
//!
//! Given a target cell grid, a phase fraction and rendering flags, the
//! rasterizer samples the embedded texture through an aspect-preserving
//! fit, masks it to the disc of a unit sphere seen orthographically,
//! shades each cell by the sign of the illumination dot product, and
//! optionally overlays surface labels.  The output is an owned grid of
//! optional cells; an unset cell means "leave as background".
//!
//! Everything is fixed point: normalized coordinates inside the drawn
//! rectangle are scaled by 1_000_000 (microunits), so the unit-circle mask
//! `dx*dx + dy*dy <= 0.25` becomes an exact integer comparison against
//! 250_000_000_000.

use vstd::prelude::*;
use crate::lang::Language;
use crate::labels::{Feature, spec_feature_name, feature_name, width_of, display_width};
use crate::texture::{Texture, texture_wf};
use crate::trig::{
    spec_sin_mdeg, spec_cos_mdeg, spec_isqrt, sin_mdeg, cos_mdeg, isqrt_u64, rem_euclid_i128,
    div_euclid_i64,
};
use crate::phase::spec_phase_angle_mdeg;

verus! {

/// Color fidelity of the output.
#[derive(Clone, Copy, Debug, PartialEq, Eq, Structural)]
pub enum ColorMode {
    TrueColor,
    Indexed,
}

/// A foreground color: a 24-bit RGB triple or a 256-color palette index.
#[derive(Clone, Copy, Debug, PartialEq, Eq, Structural)]
pub enum CellColor {
    Rgb(u8, u8, u8),
    Indexed(u8),
}

/// One written grid cell: a character and its foreground color.
#[derive(Clone, Copy, Debug, PartialEq, Eq, Structural)]
pub struct Cell {
    pub ch: char,
    pub fg: CellColor,
}

/// The transient input of one rasterization call.
#[derive(Clone, Copy, Debug)]
pub struct RenderRequest {
    pub width: u16,
    pub height: u16,
    /// Phase fraction in millionths of a cycle, `0..1_000_000`.
    pub phase_ppm: u64,
    pub show_labels: bool,
    pub hide_dark: bool,
    pub language: Language,
    pub color_mode: ColorMode,
}

/// The output grid: `height` rows of `width` optional cells.
pub type Grid = Vec<Vec<Option<Cell>>>;

pub open spec fn grid_view(g: &Grid) -> Seq<Seq<Option<Cell>>> {
    g@.map_values(|row: Vec<Option<Cell>>| row@)
}

// ---------------------------------------------------------------------------
// Colors: a warm gold for lit cells, a neutral gray for shadowed ones.
// The shading never varies with the color mode; only the encoding does.
// ---------------------------------------------------------------------------

pub open spec fn spec_lit_color(mode: ColorMode) -> CellColor {
    match mode {
        ColorMode::TrueColor => CellColor::Rgb(235, 190, 100),
        ColorMode::Indexed => CellColor::Indexed(179),
    }
}

pub open spec fn spec_shadow_color(mode: ColorMode) -> CellColor {
    match mode {
        ColorMode::TrueColor => CellColor::Rgb(110, 110, 110),
        ColorMode::Indexed => CellColor::Indexed(242),
    }
}

pub open spec fn spec_marker_color(mode: ColorMode) -> CellColor {
    match mode {
        ColorMode::TrueColor => CellColor::Rgb(220, 70, 70),
        ColorMode::Indexed => CellColor::Indexed(9),
    }
}

pub open spec fn spec_label_color(mode: ColorMode) -> CellColor {
    match mode {
        ColorMode::TrueColor => CellColor::Rgb(120, 200, 220),
        ColorMode::Indexed => CellColor::Indexed(14),
    }
}

pub fn lit_color(mode: ColorMode) -> (c: CellColor)
    ensures
        c == spec_lit_color(mode),
{
    match mode {
        ColorMode::TrueColor => CellColor::Rgb(235, 190, 100),
        ColorMode::Indexed => CellColor::Indexed(179),
    }
}

pub fn shadow_color(mode: ColorMode) -> (c: CellColor)
    ensures
        c == spec_shadow_color(mode),
{
    match mode {
        ColorMode::TrueColor => CellColor::Rgb(110, 110, 110),
        ColorMode::Indexed => CellColor::Indexed(242),
    }
}

pub fn marker_color(mode: ColorMode) -> (c: CellColor)
    ensures
        c == spec_marker_color(mode),
{
    match mode {
        ColorMode::TrueColor => CellColor::Rgb(220, 70, 70),
        ColorMode::Indexed => CellColor::Indexed(9),
    }
}

pub fn label_color(mode: ColorMode) -> (c: CellColor)
    ensures
        c == spec_label_color(mode),
{
    match mode {
        ColorMode::TrueColor => CellColor::Rgb(120, 200, 220),
        ColorMode::Indexed => CellColor::Indexed(14),
    }
}

// ---------------------------------------------------------------------------
// The crop box: the tight bounding rectangle of non-space texture bytes.
// ---------------------------------------------------------------------------

/// A non-space byte stands at column `x` of row `y`.
pub open spec fn spec_marked(rows: Seq<Seq<u8>>, x: int, y: int) -> bool {
    0 <= y < rows.len() && 0 <= x < rows[y].len() && rows[y][x] != 32
}

/// The texture has at least one non-space byte.
pub open spec fn has_ink(rows: Seq<Seq<u8>>) -> bool {
    exists|x: int, y: int| spec_marked(rows, x, y)
}

#[derive(Clone, Copy, Debug, PartialEq, Eq, Structural)]
pub struct CropBox {
    pub min_x: usize,
    pub max_x: usize,
    pub min_y: usize,
    pub max_y: usize,
}

/// `c` is the tight bounding box of the non-space bytes: it bounds them
/// all, and each of its four edges carries one.
pub open spec fn crop_char(rows: Seq<Seq<u8>>, c: CropBox) -> bool {
    &&& forall|x: int, y: int|
        spec_marked(rows, x, y) ==> c.min_x <= x <= c.max_x && c.min_y <= y <= c.max_y
    &&& exists|x: int| spec_marked(rows, x, c.min_y as int)
    &&& exists|x: int| spec_marked(rows, x, c.max_y as int)
    &&& exists|y: int| spec_marked(rows, c.min_x as int, y)
    &&& exists|y: int| spec_marked(rows, c.max_x as int, y)
}

/// The crop box of a texture with ink.
pub open spec fn spec_crop_of(rows: Seq<Seq<u8>>) -> CropBox {
    choose|c: CropBox| crop_char(rows, c)
}

/// The tight bounding box is unique.
pub proof fn lemma_crop_unique(rows: Seq<Seq<u8>>, c1: CropBox, c2: CropBox)
    requires
        crop_char(rows, c1),
        crop_char(rows, c2),
    ensures
        c1 == c2,
{
    let x1 = choose|x: int| spec_marked(rows, x, c1.min_y as int);
    let x2 = choose|x: int| spec_marked(rows, x, c1.max_y as int);
    let y1 = choose|y: int| spec_marked(rows, c1.min_x as int, y);
    let y2 = choose|y: int| spec_marked(rows, c1.max_x as int, y);
    let x3 = choose|x: int| spec_marked(rows, x, c2.min_y as int);
    let x4 = choose|x: int| spec_marked(rows, x, c2.max_y as int);
    let y3 = choose|y: int| spec_marked(rows, c2.min_x as int, y);
    let y4 = choose|y: int| spec_marked(rows, c2.max_x as int, y);
    assert(spec_marked(rows, x1, c1.min_y as int));
    assert(spec_marked(rows, x2, c1.max_y as int));
    assert(spec_marked(rows, c1.min_x as int, y1));
    assert(spec_marked(rows, c1.max_x as int, y2));
    assert(spec_marked(rows, x3, c2.min_y as int));
    assert(spec_marked(rows, x4, c2.max_y as int));
    assert(spec_marked(rows, c2.min_x as int, y3));
    assert(spec_marked(rows, c2.max_x as int, y4));
}

/// Whatever satisfies the crop characterization is `spec_crop_of`.
pub proof fn lemma_crop_is(rows: Seq<Seq<u8>>, c: CropBox)
    requires
        crop_char(rows, c),
    ensures
        spec_crop_of(rows) == c,
{
    assert(crop_char(rows, spec_crop_of(rows))) by {
        assert(exists|cc: CropBox| crop_char(rows, cc));
    }
    lemma_crop_unique(rows, spec_crop_of(rows), c);
}

/// Compute the tight bounding box of the non-space bytes, or `None` when
/// the texture is all space.
pub fn crop_box(t: &Texture) -> (r: Option<CropBox>)
    requires
        texture_wf(t),
    ensures
        match r {
            Option::None => !has_ink(t.rows.deep_view()),
            Option::Some(c) => {
                &&& crop_char(t.rows.deep_view(), c)
                &&& c == spec_crop_of(t.rows.deep_view())
                &&& c.min_x <= c.max_x < 65535
                &&& c.min_y <= c.max_y < t.rows.deep_view().len() <= 65535
            },
        },
{
    let ghost rows = t.rows.deep_view();
    proof {
        assert(rows.len() == t.rows@.len());
        assert(forall|i: int|
            0 <= i < rows.len() ==> rows[i] == (#[trigger] t.rows@[i])@);
    }
    let mut found: bool = false;
    let mut min_x: usize = 0;
    let mut max_x: usize = 0;
    let mut min_y: usize = 0;
    let mut max_y: usize = 0;
    let n: usize = t.rows.len();
    let mut y: usize = 0;
    while y < n
        invariant
            texture_wf(t),
            rows == t.rows.deep_view(),
            rows.len() == t.rows@.len(),
            forall|i: int| 0 <= i < rows.len() ==> rows[i] == (#[trigger] t.rows@[i])@,
            n == rows.len() <= 65535,
            y <= n,
            !found ==> forall|xx: int, yy: int|
                0 <= yy < y ==> !spec_marked(rows, xx, yy),
            found ==> {
                &&& min_x <= max_x < 65535
                &&& min_y <= max_y < y
                &&& exists|x: int| spec_marked(rows, x, min_y as int)
                &&& exists|x: int| spec_marked(rows, x, max_y as int)
                &&& exists|yy: int| spec_marked(rows, min_x as int, yy)
                &&& exists|yy: int| spec_marked(rows, max_x as int, yy)
                &&& forall|xx: int, yy: int|
                    0 <= yy < y && spec_marked(rows, xx, yy) ==> min_x <= xx <= max_x && min_y
                        <= yy <= max_y
            },
        decreases n - y,
    {
        let row_len: usize = t.rows[y].len();
        let mut x: usize = 0;
        while x < row_len
            invariant
                texture_wf(t),
                rows == t.rows.deep_view(),
                rows.len() == t.rows@.len(),
                forall|i: int| 0 <= i < rows.len() ==> rows[i] == (#[trigger] t.rows@[i])@,
                n == rows.len() <= 65535,
                y < n,
                x <= row_len,
                row_len == rows[y as int].len() <= 65535,
                !found ==> forall|xx: int, yy: int|
                    0 <= yy < y || (yy == y && 0 <= xx < x) ==> !spec_marked(rows, xx, yy),
                found ==> {
                    &&& min_x <= max_x < 65535
                    &&& min_y <= max_y <= y
                    &&& exists|xx: int| spec_marked(rows, xx, min_y as int)
                    &&& exists|xx: int| spec_marked(rows, xx, max_y as int)
                    &&& exists|yy: int| spec_marked(rows, min_x as int, yy)
                    &&& exists|yy: int| spec_marked(rows, max_x as int, yy)
                    &&& forall|xx: int, yy: int|
                        (0 <= yy < y || (yy == y && 0 <= xx < x)) && spec_marked(rows, xx, yy)
                            ==> min_x <= xx <= max_x && min_y <= yy <= max_y
                },
            decreases row_len - x,
        {
            let b: u8 = t.rows[y][x];
            proof {
                assert(b == rows[y as int][x as int]);
            }
            if b != 32 {
                proof {
                    assert(spec_marked(rows, x as int, y as int));
                }
                if !found {
                    found = true;
                    min_x = x;
                    max_x = x;
                    min_y = y;
                    max_y = y;
                } else {
                    if x < min_x {
                        min_x = x;
                    }
                    if x > max_x {
                        max_x = x;
                    }
                    if y < min_y {
                        min_y = y;
                    }
                    if y > max_y {
                        max_y = y;
                    }
                }
            }
            x = x + 1;
        }
        proof {
            if !found {
                assert(forall|xx: int, yy: int|
                    0 <= yy < y + 1 ==> !spec_marked(rows, xx, yy)) by {
                    assert(forall|xx: int|
                        spec_marked(rows, xx, y as int) ==> 0 <= xx < rows[y as int].len());
                }
            }
        }
        y = y + 1;
    }
    if found {
        let c = CropBox { min_x, max_x, min_y, max_y };
        proof {
            assert forall|xx: int, yy: int| spec_marked(rows, xx, yy) implies c.min_x <= xx
                <= c.max_x && c.min_y <= yy <= c.max_y by {
                assert(0 <= yy < rows.len());
            }
            assert(crop_char(rows, c));
            lemma_crop_is(rows, c);
        }
        Option::Some(c)
    } else {
        proof {
            assert(forall|xx: int, yy: int|
                spec_marked(rows, xx, yy) ==> 0 <= yy < rows.len());
        }
        Option::None
    }
}

// ---------------------------------------------------------------------------
// Fit: draw dimensions that preserve the crop's aspect ratio, centered.
// ---------------------------------------------------------------------------

/// Drawing geometry in microcells: the drawn rectangle's dimensions and
/// its top-left corner inside the output area.
#[derive(Clone, Copy, Debug, PartialEq, Eq, Structural)]
pub struct FitGeom {
    pub draw_w_u: i64,
    pub draw_h_u: i64,
    pub start_x_u: i64,
    pub start_y_u: i64,
}

/// Draw dimensions and start offsets in microcells, as
/// `(draw_w, draw_h, start_x, start_y)`, for a crop of `cw x ch` cells
/// fitted into an area of `aw x ah` cells.
pub open spec fn spec_fit(cw: int, ch: int, aw: int, ah: int) -> (int, int, int, int) {
    if aw * ch < cw * ah {
        let dw = aw * 1000000;
        let dh = aw * ch * 1000000 / cw;
        (dw, dh, 0, (ah * 1000000 - dh) / 2)
    } else {
        let dh = ah * 1000000;
        let dw = ah * cw * 1000000 / ch;
        (dw, dh, (aw * 1000000 - dw) / 2, 0)
    }
}

pub open spec fn fit_geom_is(g: FitGeom, cw: int, ch: int, aw: int, ah: int) -> bool {
    &&& g.draw_w_u == spec_fit(cw, ch, aw, ah).0
    &&& g.draw_h_u == spec_fit(cw, ch, aw, ah).1
    &&& g.start_x_u == spec_fit(cw, ch, aw, ah).2
    &&& g.start_y_u == spec_fit(cw, ch, aw, ah).3
}

pub fn fit_geometry(cw: u64, ch: u64, aw: u64, ah: u64) -> (g: FitGeom)
    requires
        1 <= cw <= 65535,
        1 <= ch <= 65535,
        1 <= aw <= 65535,
        1 <= ah <= 65535,
    ensures
        fit_geom_is(g, cw as int, ch as int, aw as int, ah as int),
        1 <= g.draw_w_u <= aw * 1000000,
        1 <= g.draw_h_u <= ah * 1000000,
        0 <= g.start_x_u,
        g.start_x_u + g.draw_w_u <= aw * 1000000,
        0 <= g.start_y_u,
        g.start_y_u + g.draw_h_u <= ah * 1000000,
{
    proof {
        assert(1 <= aw * ch <= 65535 * 65535 && 1 <= cw * ah <= 65535 * 65535 && 1 <= ah * cw
            <= 65535 * 65535) by (nonlinear_arith)
            requires
                1 <= cw <= 65535,
                1 <= ch <= 65535,
                1 <= aw <= 65535,
                1 <= ah <= 65535,
        ;
    }
    if aw * ch < cw * ah {
        let num: u64 = aw * ch * 1000000;
        let dh: u64 = num / cw;
        proof {
            assert(num >= 1000000);
            assert(num / cw >= 1) by {
                vstd::arithmetic::div_mod::lemma_div_is_ordered(cw as int, num as int, cw as int);
                vstd::arithmetic::div_mod::lemma_fundamental_div_mod_converse(
                    cw as int,
                    cw as int,
                    1,
                    0,
                );
            }
            assert((aw * ch) * 1000000 <= (cw * ah) * 1000000 - 1000000);
            assert((cw as int * ah as int) * 1000000 == cw as int * (ah as int * 1000000))
                by (nonlinear_arith);
            assert(num / cw <= ah * 1000000) by {
                vstd::arithmetic::div_mod::lemma_div_is_ordered(
                    num as int,
                    cw as int * (ah as int * 1000000),
                    cw as int,
                );
                vstd::arithmetic::div_mod::lemma_div_multiples_vanish(
                    ah as int * 1000000,
                    cw as int,
                );
            }
        }
        let sy: u64 = (ah * 1000000 - dh) / 2;
        proof {
            let rem = ah as int * 1000000 - dh as int;
            assert(rem / 2 + dh <= ah * 1000000) by {
                assert(rem / 2 <= rem) by {
                    vstd::arithmetic::div_mod::lemma_div_is_ordered_by_denominator(rem, 1, 2);
                    vstd::arithmetic::div_mod::lemma_fundamental_div_mod_converse(rem, 1, rem, 0);
                }
            }
        }
        FitGeom {
            draw_w_u: (aw * 1000000) as i64,
            draw_h_u: dh as i64,
            start_x_u: 0,
            start_y_u: sy as i64,
        }
    } else {
        let num: u64 = ah * cw * 1000000;
        let dw: u64 = num / ch;
        proof {
            assert(num >= 1000000);
            assert(num / ch >= 1) by {
                vstd::arithmetic::div_mod::lemma_div_is_ordered(ch as int, num as int, ch as int);
                vstd::arithmetic::div_mod::lemma_fundamental_div_mod_converse(
                    ch as int,
                    ch as int,
                    1,
                    0,
                );
            }
            assert((cw * ah) * 1000000 <= (aw * ch) * 1000000);
            assert((ah as int * cw as int) * 1000000 == (cw as int * ah as int) * 1000000)
                by (nonlinear_arith);
            assert((aw as int * ch as int) * 1000000 == ch as int * (aw as int * 1000000))
                by (nonlinear_arith);
            assert(num / ch <= aw * 1000000) by {
                vstd::arithmetic::div_mod::lemma_div_is_ordered(
                    num as int,
                    ch as int * (aw as int * 1000000),
                    ch as int,
                );
                vstd::arithmetic::div_mod::lemma_div_multiples_vanish(
                    aw as int * 1000000,
                    ch as int,
                );
            }
        }
        let sx: u64 = (aw * 1000000 - dw) / 2;
        proof {
            let rem = aw as int * 1000000 - dw as int;
            assert(rem / 2 + dw <= aw * 1000000) by {
                assert(rem / 2 <= rem) by {
                    vstd::arithmetic::div_mod::lemma_div_is_ordered_by_denominator(rem, 1, 2);
                    vstd::arithmetic::div_mod::lemma_fundamental_div_mod_converse(rem, 1, rem, 0);
                }
            }
        }
        FitGeom {
            draw_w_u: dw as i64,
            draw_h_u: (ah * 1000000) as i64,
            start_x_u: sx as i64,
            start_y_u: 0,
        }
    }
}

/// The drawn rectangle keeps the crop's aspect ratio as closely as integers
/// allow: the cross products `draw_w * ch` and `draw_h * cw` differ by less
/// than one crop cell's worth of microcells.
pub proof fn lemma_fit_preserves_aspect(cw: int, ch: int, aw: int, ah: int)
    requires
        1 <= cw <= 65535,
        1 <= ch <= 65535,
        1 <= aw <= 65535,
        1 <= ah <= 65535,
    ensures
        aw * ch < cw * ah ==> 0 <= spec_fit(cw, ch, aw, ah).0 * ch - spec_fit(cw, ch, aw, ah).1
            * cw < cw,
        aw * ch >= cw * ah ==> 0 <= spec_fit(cw, ch, aw, ah).1 * cw - spec_fit(cw, ch, aw, ah).0
            * ch < ch,
{
    if aw * ch < cw * ah {
        let num = aw * ch * 1000000;
        let dh = num / cw;
        vstd::arithmetic::div_mod::lemma_fundamental_div_mod(num, cw);
        vstd::arithmetic::div_mod::lemma_mod_bound(num, cw);
        assert((aw * 1000000) * ch == aw * ch * 1000000) by (nonlinear_arith);
        assert(num == cw * dh + num % cw);
        assert(dh * cw == cw * dh) by (nonlinear_arith);
    } else {
        let num = ah * cw * 1000000;
        let dw = num / ch;
        vstd::arithmetic::div_mod::lemma_fundamental_div_mod(num, ch);
        vstd::arithmetic::div_mod::lemma_mod_bound(num, ch);
        assert((ah * 1000000) * cw == ah * cw * 1000000) by (nonlinear_arith);
        assert(num == ch * dw + num % ch);
        assert(dw * ch == ch * dw) by (nonlinear_arith);
    }
}

// ---------------------------------------------------------------------------
// Per-cell sampling, mask and shading.
// ---------------------------------------------------------------------------

/// Normalized coordinate (in microunits) of cell `x` inside a drawn span
/// starting at `start_u` with extent `draw_u` microcells.
pub open spec fn spec_norm_coord(x: int, start_u: int, draw_u: int) -> int {
    (x * 1000000 - start_u) * 1000000 / draw_u
}

/// The cell lies inside the drawn span.
pub open spec fn spec_in_draw(x: int, start_u: int, draw_u: int) -> bool {
    &&& x * 1000000 >= start_u
    &&& spec_norm_coord(x, start_u, draw_u) < 1000000
}

/// Nearest-neighbour sample of the texture at normalized coordinates,
/// mapped through the crop box; space for positions outside a row.
pub open spec fn spec_sample(rows: Seq<Seq<u8>>, c: CropBox, nxu: int, nyu: int) -> u8 {
    let sx = c.min_x + nxu * (c.max_x - c.min_x + 1) / 1000000;
    let sy = c.min_y + nyu * (c.max_y - c.min_y + 1) / 1000000;
    if 0 <= sy < rows.len() && 0 <= sx < rows[sy].len() {
        rows[sy][sx]
    } else {
        32
    }
}

/// The cell's normalized offsets from the disc center keep it inside the
/// disc of radius one half.
pub open spec fn spec_mask_ok(nxu: int, nyu: int) -> bool {
    (nxu - 500000) * (nxu - 500000) + (nyu - 500000) * (nyu - 500000) <= 250000000000
}

/// Horizontal component of the sun direction for a phase fraction.
pub open spec fn spec_sun_x(ppm: int) -> int {
    spec_sin_mdeg(spec_phase_angle_mdeg(ppm))
}

/// Viewer-axis component of the sun direction for a phase fraction.
pub open spec fn spec_sun_z(ppm: int) -> int {
    -spec_cos_mdeg(spec_phase_angle_mdeg(ppm))
}

/// Illumination at a masked cell: the dot product of the sphere's surface
/// normal with the sun direction, scaled by 1e12.
pub open spec fn spec_intensity(nxu: int, nyu: int, ppm: int) -> int {
    let u = 2 * (nxu - 500000);
    let v = 2 * (nyu - 500000);
    let z = spec_isqrt(1000000000000 - u * u - v * v);
    u * spec_sun_x(ppm) + z * spec_sun_z(ppm)
}

/// What the rasterizer writes at cell `(x, y)`: nothing outside the drawn
/// rectangle or the disc; otherwise the sampled character, in the lit color
/// where the intensity is positive, else in the shadow color, or nothing
/// when the unlit side is hidden.
pub open spec fn spec_cell_at(
    rows: Seq<Seq<u8>>,
    c: CropBox,
    dw: int,
    dh: int,
    sx_u: int,
    sy_u: int,
    ppm: int,
    hide_dark: bool,
    mode: ColorMode,
    x: int,
    y: int,
) -> Option<Cell> {
    if !spec_in_draw(x, sx_u, dw) || !spec_in_draw(y, sy_u, dh) {
        Option::None
    } else {
        let nxu = spec_norm_coord(x, sx_u, dw);
        let nyu = spec_norm_coord(y, sy_u, dh);
        let b = spec_sample(rows, c, nxu, nyu);
        if !spec_mask_ok(nxu, nyu) {
            Option::None
        } else if spec_intensity(nxu, nyu, ppm) > 0 {
            Option::Some(Cell { ch: b as char, fg: spec_lit_color(mode) })
        } else if !hide_dark {
            Option::Some(Cell { ch: b as char, fg: spec_shadow_color(mode) })
        } else {
            Option::None
        }
    }
}

/// Compute one cell of the base raster.
#[verifier::rlimit(60)]
fn cell_at(
    t: &Texture,
    c: CropBox,
    geom: FitGeom,
    sunx: i64,
    sunz: i64,
    ppm: u64,
    hide_dark: bool,
    mode: ColorMode,
    x: u16,
    y: u16,
) -> (r: Option<Cell>)
    requires
        texture_wf(t),
        c.min_x <= c.max_x < 65535,
        c.min_y <= c.max_y < t.rows.deep_view().len() <= 65535,
        1 <= geom.draw_w_u <= 65535000000,
        1 <= geom.draw_h_u <= 65535000000,
        0 <= geom.start_x_u <= 65535000000,
        0 <= geom.start_y_u <= 65535000000,
        ppm < 1000000,
        sunx == spec_sun_x(ppm as int),
        sunz == spec_sun_z(ppm as int),
        -1000000 <= sunx <= 1000000,
        -1000000 <= sunz <= 1000000,
    ensures
        r == spec_cell_at(
            t.rows.deep_view(),
            c,
            geom.draw_w_u as int,
            geom.draw_h_u as int,
            geom.start_x_u as int,
            geom.start_y_u as int,
            ppm as int,
            hide_dark,
            mode,
            x as int,
            y as int,
        ),
{
    let ghost rows = t.rows.deep_view();
    let xi: i64 = x as i64 * 1000000 - geom.start_x_u;
    if xi < 0 {
        return Option::None;
    }
    let nxu64: u64 = (xi as u64) * 1000000 / (geom.draw_w_u as u64);
    if nxu64 >= 1000000 {
        return Option::None;
    }
    let yi: i64 = y as i64 * 1000000 - geom.start_y_u;
    if yi < 0 {
        return Option::None;
    }
    let nyu64: u64 = (yi as u64) * 1000000 / (geom.draw_h_u as u64);
    if nyu64 >= 1000000 {
        return Option::None;
    }
    let nxu: i64 = nxu64 as i64;
    let nyu: i64 = nyu64 as i64;
    proof {
        assert(nxu == spec_norm_coord(x as int, geom.start_x_u as int, geom.draw_w_u as int));
        assert(nyu == spec_norm_coord(y as int, geom.start_y_u as int, geom.draw_h_u as int));
    }
    let dx: i64 = nxu - 500000;
    let dy: i64 = nyu - 500000;
    proof {
        assert(0 <= dx * dx <= 250000000000 && 0 <= dy * dy <= 250000000000)
            by (nonlinear_arith)
            requires
                -500000 <= dx <= 500000,
                -500000 <= dy <= 500000,
        ;
    }
    if dx * dx + dy * dy > 250000000000 {
        return Option::None;
    }
    // Sample the texture through the crop box.
    let cw: u64 = (c.max_x - c.min_x) as u64 + 1;
    let ch: u64 = (c.max_y - c.min_y) as u64 + 1;
    proof {
        assert(nxu64 * cw <= 999999 * 65535 && nyu64 * ch <= 999999 * 65535)
            by (nonlinear_arith)
            requires
                nxu64 <= 999999,
                nyu64 <= 999999,
                1 <= cw <= 65535,
                1 <= ch <= 65535,
        ;
        assert(forall|i: int| 0 <= i < rows.len() ==> rows[i] == (#[trigger] t.rows@[i])@);
    }
    let sx: u64 = c.min_x as u64 + nxu64 * cw / 1000000;
    let sy: u64 = c.min_y as u64 + nyu64 * ch / 1000000;
    let b: u8 = if (sy as usize) < t.rows.len() {
        let row: &Vec<u8> = &t.rows[sy as usize];
        if (sx as usize) < row.len() {
            row[sx as usize]
        } else {
            32
        }
    } else {
        32
    };
    proof {
        assert(b == spec_sample(rows, c, nxu as int, nyu as int));
    }
    // Sphere depth and illumination.
    let u: i64 = 2 * dx;
    let v: i64 = 2 * dy;
    proof {
        assert(u * u == 4 * (dx * dx) && v * v == 4 * (dy * dy)) by (nonlinear_arith)
            requires
                u == 2 * dx,
                v == 2 * dy,
        ;
    }
    let rad: u64 = (1000000000000i64 - (u * u + v * v)) as u64;
    let z64: u64 = isqrt_u64(rad);
    proof {
        assert(z64 * z64 <= 1000000000000);
        assert(z64 <= 1000000) by (nonlinear_arith)
            requires
                z64 >= 0,
                z64 * z64 <= 1000000000000,
        ;
    }
    let z: i64 = z64 as i64;
    proof {
        assert(-1000000000000 <= u * sunx <= 1000000000000) by (nonlinear_arith)
            requires
                -1000000 <= u <= 1000000,
                -1000000 <= sunx <= 1000000,
        ;
        assert(-1000000000000 <= z * sunz <= 1000000000000) by (nonlinear_arith)
            requires
                0 <= z <= 1000000,
                -1000000 <= sunz <= 1000000,
        ;
    }
    let intensity: i64 = u * sunx + z * sunz;
    if intensity > 0 {
        Option::Some(Cell { ch: b as char, fg: lit_color(mode) })
    } else if !hide_dark {
        Option::Some(Cell { ch: b as char, fg: shadow_color(mode) })
    } else {
        Option::None
    }
}

// ---------------------------------------------------------------------------
// Label overlay: orthographic projection of the landmark list.
// ---------------------------------------------------------------------------

/// Grid cell of a feature under the orthographic projection, with the
/// fixed inward scale (0.95) and the fixed offset (-0.10 on both axes).
/// Negative positions clamp to zero, as a saturating cast would.
pub open spec fn spec_project(f: Feature, dw: int, dh: int, sx_u: int, sy_u: int) -> (int, int) {
    let lat = (f.lat_mdeg as int) % 360000;
    let lon = (f.lon_mdeg as int) % 360000;
    let u = spec_cos_mdeg(lat) * spec_sin_mdeg(lon) / 1000000;
    let v = spec_sin_mdeg(lat);
    let u_adj = u * 95 / 100 - 100000;
    let v_adj = v * 95 / 100 - 100000;
    let nx = 500000 + u_adj / 2;
    let ny = 500000 - v_adj / 2;
    let tx = sx_u + nx * dw / 1000000;
    let ty = sy_u + ny * dh / 1000000;
    let xi = if tx < 0 {
        0
    } else {
        tx / 1000000
    };
    let yi = if ty < 0 {
        0
    } else {
        ty / 1000000
    };
    (xi, yi)
}

/// Write the characters of `name` from column `x0` on row `y`, dropping
/// what would fall past column `w`.
pub open spec fn spec_write_chars(
    g: Seq<Seq<Option<Cell>>>,
    y: int,
    x0: int,
    name: Seq<char>,
    w: int,
    color: CellColor,
) -> Seq<Seq<Option<Cell>>>
    decreases name.len(),
{
    if name.len() == 0 {
        g
    } else {
        let g1 = if x0 < w {
            g.update(y, g[y].update(x0, Option::Some(Cell { ch: name[0], fg: color })))
        } else {
            g
        };
        spec_write_chars(g1, y, x0 + 1, name.drop_first(), w, color)
    }
}

proof fn lemma_write_chars_beyond(
    g: Seq<Seq<Option<Cell>>>,
    y: int,
    x0: int,
    name: Seq<char>,
    w: int,
    color: CellColor,
)
    requires
        x0 >= w,
    ensures
        spec_write_chars(g, y, x0, name, w, color) == g,
    decreases name.len(),
{
    if name.len() > 0 {
        lemma_write_chars_beyond(g, y, x0 + 1, name.drop_first(), w, color);
    }
}

/// One feature's label: a marker glyph at the projected cell and, to its
/// right, the localized name, skipped entirely when it would overflow.
pub open spec fn spec_place_label(
    g: Seq<Seq<Option<Cell>>>,
    f: Feature,
    lang: Language,
    dw: int,
    dh: int,
    sx_u: int,
    sy_u: int,
    w: int,
    h: int,
    mode: ColorMode,
) -> Seq<Seq<Option<Cell>>> {
    let (xi, yi) = spec_project(f, dw, dh, sx_u, sy_u);
    if xi < w && yi < h {
        let g1 = g.update(
            yi,
            g[yi].update(xi, Option::Some(Cell { ch: 'x', fg: spec_marker_color(mode) })),
        );
        let name = spec_feature_name(f, lang);
        if xi + 1 + width_of(name) < w {
            spec_write_chars(g1, yi, xi + 1, name, w, spec_label_color(mode))
        } else {
            g1
        }
    } else {
        g
    }
}

/// All labels, applied in list order; later labels may overwrite earlier
/// ones.
pub open spec fn spec_apply_labels(
    g: Seq<Seq<Option<Cell>>>,
    feats: Seq<Feature>,
    lang: Language,
    dw: int,
    dh: int,
    sx_u: int,
    sy_u: int,
    w: int,
    h: int,
    mode: ColorMode,
) -> Seq<Seq<Option<Cell>>>
    decreases feats.len(),
{
    if feats.len() == 0 {
        g
    } else {
        spec_apply_labels(
            spec_place_label(g, feats[0], lang, dw, dh, sx_u, sy_u, w, h, mode),
            feats.drop_first(),
            lang,
            dw,
            dh,
            sx_u,
            sy_u,
            w,
            h,
            mode,
        )
    }
}

/// Place one feature's label on the grid.
#[verifier::rlimit(100)]
fn place_label(
    grid: &mut Grid,
    f: &Feature,
    lang: Language,
    geom: FitGeom,
    w: u16,
    h: u16,
    mode: ColorMode,
)
    requires
        1 <= geom.draw_w_u <= 65535000000,
        1 <= geom.draw_h_u <= 65535000000,
        0 <= geom.start_x_u <= 65535000000,
        0 <= geom.start_y_u <= 65535000000,
        old(grid)@.len() == h,
        forall|yy: int| 0 <= yy < h as int ==> (#[trigger] old(grid)@[yy])@.len() == w,
        f.lat_mdeg > i64::MIN,
        f.lon_mdeg > i64::MIN,
    ensures
        grid_view(final(grid)) == spec_place_label(
            grid_view(old(grid)),
            *f,
            lang,
            geom.draw_w_u as int,
            geom.draw_h_u as int,
            geom.start_x_u as int,
            geom.start_y_u as int,
            w as int,
            h as int,
            mode,
        ),
        final(grid)@.len() == h,
        forall|yy: int| 0 <= yy < h as int ==> (#[trigger] final(grid)@[yy])@.len() == w,
{
    let ghost g0 = grid_view(grid);
    let lat: u64 = rem_euclid_i128(f.lat_mdeg as i128, 360000);
    let lon: u64 = rem_euclid_i128(f.lon_mdeg as i128, 360000);
    let cu: i64 = cos_mdeg(lat);
    let su: i64 = sin_mdeg(lon);
    proof {
        assert(-1000000000000 <= cu * su <= 1000000000000) by (nonlinear_arith)
            requires
                -1000000 <= cu <= 1000000,
                -1000000 <= su <= 1000000,
        ;
    }
    let uu: i64 = div_euclid_i64(cu * su, 1000000);
    proof {
        vstd::arithmetic::div_mod::lemma_div_is_ordered(-1000000000000, cu as int * su as int, 1000000);
        vstd::arithmetic::div_mod::lemma_div_is_ordered(cu as int * su as int, 1000000000000, 1000000);
    }
    let v: i64 = sin_mdeg(lat);
    let ua: i64 = div_euclid_i64(uu * 95, 100) - 100000;
    let va: i64 = div_euclid_i64(v * 95, 100) - 100000;
    proof {
        vstd::arithmetic::div_mod::lemma_div_is_ordered(-95000000, uu as int * 95, 100);
        vstd::arithmetic::div_mod::lemma_div_is_ordered(uu as int * 95, 95000000, 100);
        vstd::arithmetic::div_mod::lemma_div_is_ordered(-95000000, v as int * 95, 100);
        vstd::arithmetic::div_mod::lemma_div_is_ordered(v as int * 95, 95000000, 100);
    }
    let nx: i64 = 500000 + div_euclid_i64(ua, 2);
    let ny: i64 = 500000 - div_euclid_i64(va, 2);
    proof {
        vstd::arithmetic::div_mod::lemma_div_is_ordered(-1050000, ua as int, 2);
        vstd::arithmetic::div_mod::lemma_div_is_ordered(ua as int, 850000, 2);
        vstd::arithmetic::div_mod::lemma_div_is_ordered(-1050000, va as int, 2);
        vstd::arithmetic::div_mod::lemma_div_is_ordered(va as int, 850000, 2);
        assert(-140000000000000000 <= nx * geom.draw_w_u <= 140000000000000000)
            by (nonlinear_arith)
            requires
                -2000000 <= nx <= 2000000,
                0 <= geom.draw_w_u <= 65535000000,
        ;
        assert(-140000000000000000 <= ny * geom.draw_h_u <= 140000000000000000)
            by (nonlinear_arith)
            requires
                -2000000 <= ny <= 2000000,
                0 <= geom.draw_h_u <= 65535000000,
        ;
    }
    let tx: i64 = geom.start_x_u + div_euclid_i64(nx * geom.draw_w_u, 1000000);
    let ty: i64 = geom.start_y_u + div_euclid_i64(ny * geom.draw_h_u, 1000000);
    proof {
        vstd::arithmetic::div_mod::lemma_div_is_ordered(
            -140000000000000000,
            nx as int * geom.draw_w_u as int,
            1000000,
        );
        vstd::arithmetic::div_mod::lemma_div_is_ordered(
            nx as int * geom.draw_w_u as int,
            140000000000000000,
            1000000,
        );
        vstd::arithmetic::div_mod::lemma_div_is_ordered(
            -140000000000000000,
            ny as int * geom.draw_h_u as int,
            1000000,
        );
        vstd::arithmetic::div_mod::lemma_div_is_ordered(
            ny as int * geom.draw_h_u as int,
            140000000000000000,
            1000000,
        );
    }
    let xi: i64 = if tx < 0 {
        0
    } else {
        ((tx as u64) / 1000000) as i64
    };
    let yi: i64 = if ty < 0 {
        0
    } else {
        ((ty as u64) / 1000000) as i64
    };
    proof {
        if tx >= 0 {
            vstd::arithmetic::div_mod::lemma_div_is_ordered(tx as int, 210000000000000000, 1000000);
        }
        if ty >= 0 {
            vstd::arithmetic::div_mod::lemma_div_is_ordered(ty as int, 210000000000000000, 1000000);
        }
    }
    if xi < w as i64 && yi < h as i64 {
        let xiu: usize = xi as usize;
        let yiu: usize = yi as usize;
        let marker = Cell { ch: 'x', fg: marker_color(mode) };
        grid[yiu][xiu] = Option::Some(marker);
        let ghost g1 = g0.update(
            yi as int,
            g0[yi as int].update(xi as int, Option::Some(marker)),
        );
        proof {
            assert(grid_view(grid) =~~= g1);
        }
        let name: &str = feature_name(f, lang);
        let wd: usize = display_width(name);
        let lx: usize = xiu + 1;
        if wd < w as usize && lx + wd < w as usize {
            let color = label_color(mode);
            let nlen: usize = name.unicode_len();
            let mut k: usize = 0;
            proof {
                assert(name@.skip(0) =~= name@);
            }
            while k < nlen && lx + k < w as usize
                invariant
                    k <= nlen,
                    nlen == name@.len(),
                    lx + k <= w as usize <= 65535,
                    lx == xi + 1,
                    0 <= yi < h,
                    yiu == yi,
                    xiu == xi,
                    grid@.len() == h,
                    forall|yy: int| 0 <= yy < h as int ==> (#[trigger] grid@[yy])@.len() == w,
                    color == spec_label_color(mode),
                    spec_write_chars(
                        grid_view(grid),
                        yi as int,
                        lx + k,
                        name@.skip(k as int),
                        w as int,
                        color,
                    ) == spec_write_chars(g1, yi as int, lx as int, name@, w as int, color),
                decreases nlen - k,
            {
                let ghost gk = grid_view(grid);
                let ch: char = name.get_char(k);
                grid[yiu][lx + k] = Option::Some(Cell { ch, fg: color });
                proof {
                    let tail = name@.skip(k as int);
                    assert(tail[0] == name@[k as int]);
                    assert(tail.drop_first() =~= name@.skip(k as int + 1));
                    assert(grid_view(grid) =~~= gk.update(
                        yi as int,
                        gk[yi as int].update(lx + k, Option::Some(Cell { ch, fg: color })),
                    ));
                }
                k = k + 1;
            }
            proof {
                if k < nlen {
                    lemma_write_chars_beyond(
                        grid_view(grid),
                        yi as int,
                        lx + k,
                        name@.skip(k as int),
                        w as int,
                        color,
                    );
                } else {
                    assert(name@.skip(k as int) =~= Seq::<char>::empty());
                }
            }
        }
    }
}

// ---------------------------------------------------------------------------
// The full render.
// ---------------------------------------------------------------------------

/// The whole output grid for one request: empty for a degenerate target or
/// an all-space texture; otherwise the shaded base raster, with the labels
/// overlaid when requested.
pub open spec fn spec_render_grid(
    rows: Seq<Seq<u8>>,
    feats: Seq<Feature>,
    req: RenderRequest,
) -> Seq<Seq<Option<Cell>>> {
    if req.width == 0 || req.height == 0 || !has_ink(rows) {
        Seq::empty()
    } else {
        let c = spec_crop_of(rows);
        let cw = c.max_x - c.min_x + 1;
        let ch = c.max_y - c.min_y + 1;
        let geom = spec_fit(cw as int, ch as int, req.width as int, req.height as int);
        let base = Seq::new(
            req.height as nat,
            |y: int|
                Seq::new(
                    req.width as nat,
                    |x: int|
                        spec_cell_at(
                            rows,
                            c,
                            geom.0,
                            geom.1,
                            geom.2,
                            geom.3,
                            req.phase_ppm as int,
                            req.hide_dark,
                            req.color_mode,
                            x,
                            y,
                        ),
                ),
        );
        if req.show_labels {
            spec_apply_labels(
                base,
                feats,
                req.language,
                geom.0,
                geom.1,
                geom.2,
                geom.3,
                req.width as int,
                req.height as int,
                req.color_mode,
            )
        } else {
            base
        }
    }
}

/// Rasterize one frame.
///
/// The output is fully determined by the inputs: it equals
/// `spec_render_grid` of the texture rows, the feature list and the
/// request.  It never exceeds the requested dimensions, and it is empty
/// when the target has zero area or the texture has no ink.
#[verifier::rlimit(100)]
pub fn render(req: &RenderRequest, t: &Texture, feats: &Vec<Feature>) -> (g: Grid)
    requires
        req.phase_ppm < 1000000,
        texture_wf(t),
        forall|i: int|
            0 <= i < feats@.len() ==> (#[trigger] feats@[i]).lat_mdeg > i64::MIN
                && feats@[i].lon_mdeg > i64::MIN,
    ensures
        grid_view(&g) == spec_render_grid(t.rows.deep_view(), feats@, *req),
        g@.len() == 0 || g@.len() == req.height as int,
        forall|y: int| 0 <= y < g@.len() ==> (#[trigger] g@[y])@.len() == req.width as int,
        req.width == 0 || req.height == 0 ==> g@.len() == 0,
{
    let ghost rows = t.rows.deep_view();
    if req.width == 0 || req.height == 0 {
        let g: Grid = Vec::new();
        proof {
            assert(grid_view(&g) =~= Seq::<Seq<Option<Cell>>>::empty());
        }
        return g;
    }
    let copt = crop_box(t);
    match copt {
        Option::None => {
            let g: Grid = Vec::new();
            proof {
                assert(grid_view(&g) =~= Seq::<Seq<Option<Cell>>>::empty());
            }
            g
        },
        Option::Some(c) => {
            proof {
                let wx = choose|x: int| spec_marked(rows, x, c.min_y as int);
                assert(spec_marked(rows, wx, c.min_y as int));
                assert(has_ink(rows));
            }
            let w: u16 = req.width;
            let h: u16 = req.height;
            let cw: u64 = (c.max_x - c.min_x) as u64 + 1;
            let ch: u64 = (c.max_y - c.min_y) as u64 + 1;
            let geom = fit_geometry(cw, ch, w as u64, h as u64);
            let am: u64 = req.phase_ppm * 360000 / 1000000;
            proof {
                vstd::arithmetic::div_mod::lemma_div_is_ordered(
                    req.phase_ppm as int * 360000,
                    359999640000int,
                    1000000,
                );
            }
            let sunx: i64 = sin_mdeg(am);
            let sunz: i64 = -cos_mdeg(am);
            let ghost base = spec_render_base(rows, c, cw as int, ch as int, *req);
            let mut grid: Grid = Vec::new();
            let mut y: u16 = 0;
            while y < h
                invariant
                    texture_wf(t),
                    rows == t.rows.deep_view(),
                    c.min_x <= c.max_x < 65535,
                    c.min_y <= c.max_y < rows.len() <= 65535,
                    cw == c.max_x - c.min_x + 1,
                    ch == c.max_y - c.min_y + 1,
                    1 <= w <= 65535,
                    1 <= h <= 65535,
                    fit_geom_is(geom, cw as int, ch as int, w as int, h as int),
                    1 <= geom.draw_w_u <= 65535000000,
                    1 <= geom.draw_h_u <= 65535000000,
                    0 <= geom.start_x_u <= 65535000000,
                    0 <= geom.start_y_u <= 65535000000,
                    req.phase_ppm < 1000000,
                    w == req.width,
                    h == req.height,
                    sunx == spec_sun_x(req.phase_ppm as int),
                    sunz == spec_sun_z(req.phase_ppm as int),
                    -1000000 <= sunx <= 1000000,
                    -1000000 <= sunz <= 1000000,
                    base == spec_render_base(rows, c, cw as int, ch as int, *req),
                    y <= h,
                    grid@.len() == y,
                    forall|yy: int| 0 <= yy < y as int ==> (#[trigger] grid@[yy])@.len() == w,
                    forall|yy: int|
                        0 <= yy < y as int ==> grid_view(&grid)[yy] == base[yy],
                decreases h - y,
            {
                let mut row: Vec<Option<Cell>> = Vec::new();
                let mut x: u16 = 0;
                while x < w
                    invariant
                        texture_wf(t),
                        rows == t.rows.deep_view(),
                        c.min_x <= c.max_x < 65535,
                        c.min_y <= c.max_y < rows.len() <= 65535,
                        1 <= geom.draw_w_u <= 65535000000,
                        1 <= geom.draw_h_u <= 65535000000,
                        0 <= geom.start_x_u <= 65535000000,
                        0 <= geom.start_y_u <= 65535000000,
                        req.phase_ppm < 1000000,
                        sunx == spec_sun_x(req.phase_ppm as int),
                        sunz == spec_sun_z(req.phase_ppm as int),
                        -1000000 <= sunx <= 1000000,
                        -1000000 <= sunz <= 1000000,
                        x <= w,
                        row@.len() == x,
                        forall|xx: int|
                            0 <= xx < x as int ==> row@[xx] == spec_cell_at(
                                rows,
                                c,
                                geom.draw_w_u as int,
                                geom.draw_h_u as int,
                                geom.start_x_u as int,
                                geom.start_y_u as int,
                                req.phase_ppm as int,
                                req.hide_dark,
                                req.color_mode,
                                xx,
                                y as int,
                            ),
                    decreases w - x,
                {
                    let cell = cell_at(
                        t,
                        c,
                        geom,
                        sunx,
                        sunz,
                        req.phase_ppm,
                        req.hide_dark,
                        req.color_mode,
                        x,
                        y,
                    );
                    row.push(cell);
                    x = x + 1;
                }
                grid.push(row);
                proof {
                    assert(grid_view(&grid)[y as int] =~= base[y as int]);
                }
                y = y + 1;
            }
            proof {
                assert(grid_view(&grid) =~= base);
            }
            if req.show_labels {
                let ghost target = spec_apply_labels(
                    base,
                    feats@,
                    req.language,
                    geom.draw_w_u as int,
                    geom.draw_h_u as int,
                    geom.start_x_u as int,
                    geom.start_y_u as int,
                    w as int,
                    h as int,
                    req.color_mode,
                );
                let nf: usize = feats.len();
                let mut i: usize = 0;
                proof {
                    assert(feats@.skip(0) =~= feats@);
                }
                while i < nf
                    invariant
                        nf == feats@.len(),
                        i <= nf,
                        1 <= geom.draw_w_u <= 65535000000,
                        1 <= geom.draw_h_u <= 65535000000,
                        0 <= geom.start_x_u <= 65535000000,
                        0 <= geom.start_y_u <= 65535000000,
                        1 <= w <= 65535,
                        1 <= h <= 65535,
                        forall|j: int|
                            0 <= j < feats@.len() ==> (#[trigger] feats@[j]).lat_mdeg > i64::MIN
                                && feats@[j].lon_mdeg > i64::MIN,
                        grid@.len() == h,
                        forall|yy: int| 0 <= yy < h as int ==> (#[trigger] grid@[yy])@.len() == w,
                        target == spec_apply_labels(
                            grid_view(&grid),
                            feats@.skip(i as int),
                            req.language,
                            geom.draw_w_u as int,
                            geom.draw_h_u as int,
                            geom.start_x_u as int,
                            geom.start_y_u as int,
                            w as int,
                            h as int,
                            req.color_mode,
                        ),
                    decreases nf - i,
                {
                    let ghost before = grid_view(&grid);
                    let f: &Feature = &feats[i];
                    place_label(&mut grid, f, req.language, geom, w, h, req.color_mode);
                    proof {
                        let tail = feats@.skip(i as int);
                        assert(tail[0] == feats@[i as int]);
                        assert(tail.drop_first() =~= feats@.skip(i as int + 1));
                    }
                    i = i + 1;
                }
                proof {
                    assert(feats@.skip(nf as int) =~= Seq::<Feature>::empty());
                }
                grid
            } else {
                grid
            }
        },
    }
}

/// The base raster (no labels) as a sequence of rows.
pub open spec fn spec_render_base(
    rows: Seq<Seq<u8>>,
    c: CropBox,
    cw: int,
    ch: int,
    req: RenderRequest,
) -> Seq<Seq<Option<Cell>>> {
    let geom = spec_fit(cw, ch, req.width as int, req.height as int);
    Seq::new(
        req.height as nat,
        |y: int|
            Seq::new(
                req.width as nat,
                |x: int|
                    spec_cell_at(
                        rows,
                        c,
                        geom.0,
                        geom.1,
                        geom.2,
                        geom.3,
                        req.phase_ppm as int,
                        req.hide_dark,
                        req.color_mode,
                        x,
                        y,
                    ),
            ),
    )
}

// ---------------------------------------------------------------------------
// Laws of the rasterizer.
// ---------------------------------------------------------------------------

/// No cell written by the shading pass lies outside the drawn rectangle or
/// outside the unit-circle mask: wherever a cell is produced, its
/// normalized offsets from the disc center satisfy
/// `dx*dx + dy*dy <= 0.25` (in microunits, against 250_000_000_000).
pub proof fn lemma_written_cells_masked(
    rows: Seq<Seq<u8>>,
    c: CropBox,
    dw: int,
    dh: int,
    sx_u: int,
    sy_u: int,
    ppm: int,
    hide_dark: bool,
    mode: ColorMode,
    x: int,
    y: int,
)
    requires
        spec_cell_at(rows, c, dw, dh, sx_u, sy_u, ppm, hide_dark, mode, x, y) is Some,
    ensures
        spec_in_draw(x, sx_u, dw),
        spec_in_draw(y, sy_u, dh),
        spec_mask_ok(spec_norm_coord(x, sx_u, dw), spec_norm_coord(y, sy_u, dh)),
{
}

/// With the unlit side hidden, only lit cells are written: every produced
/// cell has positive illumination intensity and carries the lit color.
pub proof fn lemma_hide_dark_writes_only_lit(
    rows: Seq<Seq<u8>>,
    c: CropBox,
    dw: int,
    dh: int,
    sx_u: int,
    sy_u: int,
    ppm: int,
    mode: ColorMode,
    x: int,
    y: int,
    cell: Cell,
)
    requires
        spec_cell_at(rows, c, dw, dh, sx_u, sy_u, ppm, true, mode, x, y) == Option::Some(cell),
    ensures
        spec_intensity(
            spec_norm_coord(x, sx_u, dw),
            spec_norm_coord(y, sy_u, dh),
            ppm,
        ) > 0,
        cell.fg == spec_lit_color(mode),
{
}

/// With the unlit side shown, every masked cell whose intensity is not
/// positive is written in the shadow color family.
pub proof fn lemma_shadow_written_when_shown(
    rows: Seq<Seq<u8>>,
    c: CropBox,
    dw: int,
    dh: int,
    sx_u: int,
    sy_u: int,
    ppm: int,
    mode: ColorMode,
    x: int,
    y: int,
)
    requires
        spec_in_draw(x, sx_u, dw),
        spec_in_draw(y, sy_u, dh),
        spec_mask_ok(spec_norm_coord(x, sx_u, dw), spec_norm_coord(y, sy_u, dh)),
        spec_intensity(
            spec_norm_coord(x, sx_u, dw),
            spec_norm_coord(y, sy_u, dh),
            ppm,
        ) <= 0,
    ensures
        spec_cell_at(rows, c, dw, dh, sx_u, sy_u, ppm, false, mode, x, y) == Option::Some(
            Cell {
                ch: spec_sample(
                    rows,
                    c,
                    spec_norm_coord(x, sx_u, dw),
                    spec_norm_coord(y, sy_u, dh),
                ) as char,
                fg: spec_shadow_color(mode),
            },
        ),
{
}

/// Rendering is a pure function of its inputs: two grids that both satisfy
/// the render contract for the same texture, feature list and request are
/// identical.
pub proof fn lemma_render_deterministic(
    rows: Seq<Seq<u8>>,
    feats: Seq<Feature>,
    req: RenderRequest,
    g1: Seq<Seq<Option<Cell>>>,
    g2: Seq<Seq<Option<Cell>>>,
)
    requires
        g1 == spec_render_grid(rows, feats, req),
        g2 == spec_render_grid(rows, feats, req),
    ensures
        g1 == g2,
{
}

/// Sampling never leaves the texture vertically: for any normalized
/// coordinate inside the drawn rectangle, the sampled row index stays
/// within the crop box, which itself lies within the texture rows.
pub proof fn lemma_sample_row_in_range(rows: Seq<Seq<u8>>, c: CropBox, nyu: int)
    requires
        crop_char(rows, c),
        c.min_y <= c.max_y,
        0 <= nyu < 1000000,
    ensures
        c.min_y + nyu * (c.max_y - c.min_y + 1) / 1000000 <= c.max_y,
        c.max_y < rows.len(),
{
    let ch = c.max_y - c.min_y + 1;
    assert(nyu * ch <= 999999 * ch) by (nonlinear_arith)
        requires
            0 <= nyu <= 999999,
            ch >= 1,
    ;
    assert(999999 * ch <= 1000000 * ch - 1) by (nonlinear_arith)
        requires
            ch >= 1,
    ;
    assert(1000000 * ch - 1 == (ch - 1) * 1000000 + 999999) by (nonlinear_arith);
    vstd::arithmetic::div_mod::lemma_fundamental_div_mod_converse(
        1000000 * ch - 1,
        1000000,
        ch - 1,
        999999,
    );
    vstd::arithmetic::div_mod::lemma_div_is_ordered(nyu * ch, 1000000 * ch - 1, 1000000);
    let wy = choose|x: int| spec_marked(rows, x, c.max_y as int);
    assert(spec_marked(rows, wy, c.max_y as int));
}

} // verus!
