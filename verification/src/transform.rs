//! Planar affine transforms: rotation-free 4×4 matrices reduced to their
//! four live entries — the x/y diagonal scale and the x/y translation, all
//! in fixed-point milliunits.
//!
//! The operations here are the numeric core of the viewer: the zoom and pan
//! updates of the view matrix, the aspect-correcting projection, the screen
//! to plane coordinate conversion, and the image-to-mask registration
//! transform.

use vstd::prelude::*;

verus! {

use crate::fixed::SCALE;
use crate::fixed::lemma_tdiv_close;
use crate::fixed::mul_milli;
use crate::fixed::s_add;
use crate::fixed::s_mul;
use crate::fixed::s_sub;
use crate::fixed::sat_add64;
use crate::fixed::sat_i128;
use crate::fixed::sat_sub64;
use crate::fixed::sat64;
use crate::fixed::tdiv;
use crate::fixed::tdiv_i128;
use crate::volume::SPACING_MAX;
use vstd::arithmetic::div_mod::lemma_div_is_ordered;
use vstd::arithmetic::div_mod::lemma_div_multiples_vanish;

/// A 4×4 matrix of the shape the viewer uses: `diag(sx, sy, 1, 1)` with a
/// translation `(tx, ty)` — no rotation, no shear, nothing along z.
#[derive(Clone, Copy, Debug, PartialEq, Eq, Structural)]
pub struct Transform2D {
    pub sx: i64,
    pub sy: i64,
    pub tx: i64,
    pub ty: i64,
}

pub open spec fn identity_spec() -> Transform2D {
    Transform2D { sx: SCALE, sy: SCALE, tx: 0, ty: 0 }
}

pub open spec fn imin(a: int, b: int) -> int {
    if a <= b {
        a
    } else {
        b
    }
}

pub open spec fn imax(a: int, b: int) -> int {
    if a >= b {
        a
    } else {
        b
    }
}

pub open spec fn abs_int(x: int) -> int {
    if x >= 0 {
        x
    } else {
        -x
    }
}

impl Transform2D {
    pub fn identity() -> (r: Transform2D)
        ensures
            r == identity_spec(),
    {
        Transform2D { sx: SCALE, sy: SCALE, tx: 0, ty: 0 }
    }
}

/// One diagonal entry of the view matrix after zooming by factor `k`.
pub open spec fn zoom_scale_spec(k: int, s: int) -> int {
    s_mul(k, s)
}

/// One translation entry of the view matrix after zooming by factor `k`
/// about the plane coordinate `c`: `c + k * (t - c)`.
pub open spec fn zoom_trans_spec(k: int, t: int, c: int) -> int {
    s_add(c, s_mul(k, s_sub(t, c)))
}

/// The view matrix after a zoom by `k` that keeps the plane point
/// `(cx, cy)` fixed.
pub open spec fn zoomed_about_spec(v: Transform2D, k: int, cx: int, cy: int) -> Transform2D {
    Transform2D {
        sx: zoom_scale_spec(k, v.sx as int) as i64,
        sy: zoom_scale_spec(k, v.sy as int) as i64,
        tx: zoom_trans_spec(k, v.tx as int, cx) as i64,
        ty: zoom_trans_spec(k, v.ty as int, cy) as i64,
    }
}

/// One translation entry after the fallback zoom, used when no pointer
/// position is known: `t + (1 - k) * t`.
pub open spec fn zoom_origin_trans_spec(k: int, t: int) -> int {
    s_add(t, s_mul(s_sub(SCALE as int, k), t))
}

/// The view matrix after the fallback zoom about the view origin.
pub open spec fn zoomed_origin_spec(v: Transform2D, k: int) -> Transform2D {
    Transform2D {
        sx: zoom_scale_spec(k, v.sx as int) as i64,
        sy: zoom_scale_spec(k, v.sy as int) as i64,
        tx: zoom_origin_trans_spec(k, v.tx as int) as i64,
        ty: zoom_origin_trans_spec(k, v.ty as int) as i64,
    }
}

/// Zoom by factor `k` (in milliunits) keeping `(cx, cy)` fixed.
pub fn zoomed_about(v: Transform2D, k: i64, cx: i64, cy: i64) -> (r: Transform2D)
    ensures
        r == zoomed_about_spec(v, k as int, cx as int, cy as int),
{
    Transform2D {
        sx: mul_milli(k, v.sx),
        sy: mul_milli(k, v.sy),
        tx: sat_add64(cx, mul_milli(k, sat_sub64(v.tx, cx))),
        ty: sat_add64(cy, mul_milli(k, sat_sub64(v.ty, cy))),
    }
}

/// Zoom by factor `k` about the view origin.
pub fn zoomed_origin(v: Transform2D, k: i64) -> (r: Transform2D)
    ensures
        r == zoomed_origin_spec(v, k as int),
{
    let f: i64 = sat_sub64(SCALE, k);
    Transform2D {
        sx: mul_milli(k, v.sx),
        sy: mul_milli(k, v.sy),
        tx: sat_add64(v.tx, mul_milli(f, v.tx)),
        ty: sat_add64(v.ty, mul_milli(f, v.ty)),
    }
}

/// The translation a pointer movement from `prev` to `cur` adds along one
/// axis: the pixel delta over the viewport height, times two (so a drag
/// across the full height pans by the full normalized extent).
pub open spec fn pan_delta_spec(cur: int, prev: int, vp: int) -> int {
    sat64(tdiv(2 * (cur - prev), vp))
}

/// The pan translation for a pointer move, in plane milliunits.
pub fn pan_delta(cur: i64, prev: i64, vp: u32) -> (r: i64)
    requires
        vp >= 1,
    ensures
        r as int == pan_delta_spec(cur as int, prev as int, vp as int),
{
    let d: i128 = 2 * ((cur as i128) - (prev as i128));
    sat_i128(tdiv_i128(d, vp as i128))
}

/// The normalized device coordinate (doubled, offset) of a screen pixel
/// position `p` inside a viewport extent `d`: `2 * p / d`.
pub open spec fn ndc_spec(p: int, d: int) -> int {
    sat64(tdiv(2 * p, d))
}

/// The pre-projection plane x coordinate of screen position `p`:
/// `(2 * p / w - 1) / proj_sx`.
pub open spec fn plane_x_spec(p: int, d: int, proj: int) -> int {
    sat64(tdiv((ndc_spec(p, d) - SCALE) * SCALE, proj))
}

/// The pre-projection plane y coordinate of screen position `p`, with y
/// flipped to point up: `(1 - 2 * p / h) / proj_sy`.
pub open spec fn plane_y_spec(p: int, d: int, proj: int) -> int {
    sat64(tdiv((SCALE - ndc_spec(p, d)) * SCALE, proj))
}

/// The plane x coordinate under a screen position, by inverting the
/// projection's diagonal.
pub fn plane_x(p: i64, d: u32, proj: i64) -> (r: i64)
    requires
        d >= 1,
        proj >= 1,
    ensures
        r as int == plane_x_spec(p as int, d as int, proj as int),
{
    let n: i64 = sat_i128(tdiv_i128(2 * (p as i128), d as i128));
    let num: i128 = ((n as i128) - (SCALE as i128)) * (SCALE as i128);
    sat_i128(tdiv_i128(num, proj as i128))
}

/// The plane y coordinate under a screen position, y up.
pub fn plane_y(p: i64, d: u32, proj: i64) -> (r: i64)
    requires
        d >= 1,
        proj >= 1,
    ensures
        r as int == plane_y_spec(p as int, d as int, proj as int),
{
    let n: i64 = sat_i128(tdiv_i128(2 * (p as i128), d as i128));
    let num: i128 = ((SCALE as i128) - (n as i128)) * (SCALE as i128);
    sat_i128(tdiv_i128(num, proj as i128))
}

/// One diagonal entry of the projection matrix: the smaller viewport
/// extent over this axis's extent, at least one milliunit.
pub open spec fn proj_scale_spec(m: int, d: int) -> int {
    imax(1, (m * SCALE) / d)
}

/// The projection matrix for a viewport: the shorter extent maps one to
/// one, the longer is scaled down, so a unit quad keeps a 1:1 physical
/// aspect ratio on screen.
pub open spec fn projection_spec(w: int, h: int) -> Transform2D {
    Transform2D {
        sx: proj_scale_spec(imin(w, h), w) as i64,
        sy: proj_scale_spec(imin(w, h), h) as i64,
        tx: 0,
        ty: 0,
    }
}

fn proj_scale(m: u32, d: u32) -> (r: i64)
    requires
        1 <= d,
        m <= d,
    ensures
        r as int == proj_scale_spec(m as int, d as int),
        1 <= r <= SCALE,
{
    proof {
        lemma_div_is_ordered(m as int * SCALE, d as int * SCALE, d as int);
        lemma_div_multiples_vanish(SCALE as int, d as int);
        assert(m as int * SCALE <= d as int * SCALE) by (nonlinear_arith)
            requires
                0 <= m <= d,
                SCALE >= 1,
        {}
    }
    let q: u64 = ((m as u64) * 1000) / (d as u64);
    if q == 0 {
        1
    } else {
        q as i64
    }
}

/// The projection matrix for a viewport of `w` by `h` pixels.
pub fn projection_for(w: u32, h: u32) -> (r: Transform2D)
    requires
        w >= 1,
        h >= 1,
    ensures
        r == projection_spec(w as int, h as int),
        1 <= r.sx <= SCALE,
        1 <= r.sy <= SCALE,
        r.tx == 0,
        r.ty == 0,
{
    let m: u32 = if w <= h {
        w
    } else {
        h
    };
    Transform2D { sx: proj_scale(m, w), sy: proj_scale(m, h), tx: 0, ty: 0 }
}

/// Coordinate bound under which the zoom fixed-point law is stated: one
/// billion units, far beyond any reachable view.
pub const ZOOM_LAW_COORD_BOUND: i64 = 1_000_000_000_000;

/// Zoom-factor bound under which the zoom fixed-point law is stated: a
/// thousandfold zoom in one step.
pub const ZOOM_LAW_SCALE_BOUND: i64 = 1_000_000;

/// Where a view matrix axis `(s, t)` sends the quad coordinate `u`, in
/// units of `1 / (SCALE * SCALE)`: `s * u + SCALE * t`.
pub open spec fn apply_axis_spec(s: int, t: int, u: int) -> int {
    s * u + SCALE * t
}

/// Zoom fixed-point law, one axis.
///
/// If the old view matrix axis `(s, t)` sends the quad coordinate `u`
/// exactly to the plane coordinate `c` — the point under the pointer —
/// then after a zoom about `c` by any factor `k` the same quad coordinate
/// is sent back to `c`, up to fixed-point rounding: the error is below
/// `(abs(u) + SCALE) / (SCALE * SCALE)` units, less than two thousandths
/// of a unit for quad coordinates within the unit quad.
pub proof fn lemma_zoom_fixed_point_axis(s: int, t: int, k: int, c: int, u: int)
    requires
        -ZOOM_LAW_COORD_BOUND <= s <= ZOOM_LAW_COORD_BOUND,
        -ZOOM_LAW_COORD_BOUND <= t <= ZOOM_LAW_COORD_BOUND,
        -ZOOM_LAW_COORD_BOUND <= c <= ZOOM_LAW_COORD_BOUND,
        -ZOOM_LAW_COORD_BOUND <= u <= ZOOM_LAW_COORD_BOUND,
        -ZOOM_LAW_SCALE_BOUND <= k <= ZOOM_LAW_SCALE_BOUND,
        apply_axis_spec(s, t, u) == SCALE * c,
    ensures
        -(abs_int(u) + SCALE) < apply_axis_spec(
            zoom_scale_spec(k, s),
            zoom_trans_spec(k, t, c),
            u,
        ) - SCALE * c < abs_int(u) + SCALE,
{
    let d = t - c;
    let q1 = tdiv(k * s, SCALE as int);
    let q2 = tdiv(k * d, SCALE as int);
    assert(-2000000000000000000 <= k * s <= 2000000000000000000) by (nonlinear_arith)
        requires
            -1000000000000 <= s <= 1000000000000,
            -1000000 <= k <= 1000000,
    {}
    assert(-2000000000000000000 <= k * d <= 2000000000000000000) by (nonlinear_arith)
        requires
            -2000000000000 <= d <= 2000000000000,
            -1000000 <= k <= 1000000,
    {}
    lemma_tdiv_close(k * s, SCALE as int);
    lemma_tdiv_close(k * d, SCALE as int);
    assert(zoom_scale_spec(k, s) == q1);
    assert(s_sub(t, c) == d);
    assert(s_mul(k, d) == q2);
    assert(zoom_trans_spec(k, t, c) == c + q2);
    let e1 = 1000 * q1 - k * s;
    let e2 = 1000 * q2 - k * d;
    let au = abs_int(u);
    assert(1000 * (q1 * u + 1000 * (c + q2)) == e1 * u + 1000 * e2 + k * (s * u + 1000 * t
        - 1000 * c) + 1000 * (1000 * c)) by (nonlinear_arith)
        requires
            e1 == 1000 * q1 - k * s,
            e2 == 1000 * q2 - k * d,
            d == t - c,
    {}
    assert(s * u + 1000 * t - 1000 * c == 0);
    assert(k * (s * u + 1000 * t - 1000 * c) == 0) by (nonlinear_arith)
        requires
            s * u + 1000 * t - 1000 * c == 0,
    {}
    assert(-(999 * au) <= e1 * u <= 999 * au) by (nonlinear_arith)
        requires
            -999 <= e1 <= 999,
            -au <= u <= au,
            au >= 0,
    {}
    assert(apply_axis_spec(q1, c + q2, u) == q1 * u + 1000 * (c + q2));
}

/// Zoom fixed-point law for the full view matrix: the plane point
/// `(cx, cy)` under the pointer stays where it is, on both axes, after
/// [`zoomed_about_spec`].
pub proof fn lemma_zoom_fixed_point(v: Transform2D, k: int, cx: int, cy: int, ux: int, uy: int)
    requires
        -ZOOM_LAW_COORD_BOUND <= v.sx as int <= ZOOM_LAW_COORD_BOUND,
        -ZOOM_LAW_COORD_BOUND <= v.sy as int <= ZOOM_LAW_COORD_BOUND,
        -ZOOM_LAW_COORD_BOUND <= v.tx as int <= ZOOM_LAW_COORD_BOUND,
        -ZOOM_LAW_COORD_BOUND <= v.ty as int <= ZOOM_LAW_COORD_BOUND,
        -ZOOM_LAW_COORD_BOUND <= cx <= ZOOM_LAW_COORD_BOUND,
        -ZOOM_LAW_COORD_BOUND <= cy <= ZOOM_LAW_COORD_BOUND,
        -ZOOM_LAW_COORD_BOUND <= ux <= ZOOM_LAW_COORD_BOUND,
        -ZOOM_LAW_COORD_BOUND <= uy <= ZOOM_LAW_COORD_BOUND,
        -ZOOM_LAW_SCALE_BOUND <= k <= ZOOM_LAW_SCALE_BOUND,
        apply_axis_spec(v.sx as int, v.tx as int, ux) == SCALE * cx,
        apply_axis_spec(v.sy as int, v.ty as int, uy) == SCALE * cy,
    ensures
        -(abs_int(ux) + SCALE) < apply_axis_spec(
            zoomed_about_spec(v, k, cx, cy).sx as int,
            zoomed_about_spec(v, k, cx, cy).tx as int,
            ux,
        ) - SCALE * cx < abs_int(ux) + SCALE,
        -(abs_int(uy) + SCALE) < apply_axis_spec(
            zoomed_about_spec(v, k, cx, cy).sy as int,
            zoomed_about_spec(v, k, cx, cy).ty as int,
            uy,
        ) - SCALE * cy < abs_int(uy) + SCALE,
{
    lemma_zoom_fixed_point_axis(v.sx as int, v.tx as int, k, cx, ux);
    lemma_zoom_fixed_point_axis(v.sy as int, v.ty as int, k, cy, uy);
}

/// The registration transform that maps image texture coordinates to mask
/// texture coordinates: the image model matrix composed with the inverse
/// of the mask model matrix.  Both are diagonal, so each entry is a plain
/// ratio.
pub open spec fn mask_transform_spec(img: Transform2D, mask: Transform2D) -> Transform2D {
    Transform2D {
        sx: ((img.sx as int * SCALE) / (mask.sx as int)) as i64,
        sy: ((img.sy as int * SCALE) / (mask.sy as int)) as i64,
        tx: 0,
        ty: 0,
    }
}

/// Compose the image model matrix with the inverse of the mask model
/// matrix.
pub fn mask_transform(img: Transform2D, mask: Transform2D) -> (r: Transform2D)
    requires
        1 <= img.sx <= SPACING_MAX,
        1 <= img.sy <= SPACING_MAX,
        1 <= mask.sx,
        1 <= mask.sy,
    ensures
        r == mask_transform_spec(img, mask),
{
    proof {
        lemma_tdiv_close(img.sx as int * SCALE, mask.sx as int);
        lemma_tdiv_close(img.sy as int * SCALE, mask.sy as int);
    }
    let rx: u64 = ((img.sx as u64) * 1000) / (mask.sx as u64);
    let ry: u64 = ((img.sy as u64) * 1000) / (mask.sy as u64);
    Transform2D { sx: rx as i64, sy: ry as i64, tx: 0, ty: 0 }
}

} // verus!
