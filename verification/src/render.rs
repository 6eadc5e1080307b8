//! Spot rasterization into the accumulation buffer.
//!
//! Each spot contributes a radially symmetric cone profile: the unit-radius
//! footprint has value one at its center and falls linearly to zero at radius
//! one, then stays zero.  The footprint is deformed by the spot's shape
//! matrix (via its inverse) and centered at the spot's canvas position; its
//! peak value equals the spot's effective intensity, and it is bounded: it
//! vanishes beyond the shape's per-axis coefficient-magnitude extent, so a
//! draw touches only the cells of each spot's bounding box.  Contributions
//! of several spots are added cell by cell with saturating addition; nothing
//! is clamped before encode time.  Cells are sampled at integer pixel
//! coordinates.

use vstd::arithmetic::div_mod::{
    lemma_div_pos_is_pos, lemma_fundamental_div_mod, lemma_fundamental_div_mod_converse_div,
    lemma_fundamental_div_mod_converse_mod, lemma_mod_division_less_than_divisor,
};
use vstd::prelude::*;

use crate::fixed::{
    abs_int, fx_mul, fx_div, fx_sqrt, i64_mag, lemma_fx_mul_one, lemma_fx_mul_zero,
    lemma_trunc_div_exact, sat_abs_sum, sat_add, sat_sub, spec_fx_div, spec_fx_mul, spec_fx_sqrt,
    spec_isqrt, spec_sat_add, spec_sat_sub, FX_ONE,
};
use crate::geometry::{
    spec_apply, spec_shape_identity, spec_transform_identity, Point, SpotShape, Transform, Vector,
};

verus! {

/// Light spot rendering parameters owned by a canvas.
///
/// Position, shape and intrinsic intensity are fixed at creation; the offset
/// vector and the illumination factor are adjustable afterwards.
#[derive(Clone, Copy, Debug)]
pub struct SpotRec {
    /// Light spot centroid position (immutable).
    pub position: Point,
    /// Relative spot position offset (adjustable, absolute on each set).
    pub offset: Vector,
    /// Relative peak intensity (immutable).
    pub intensity: i64,
    /// Illumination based spot intensity factor (adjustable).
    pub illumination: i64,
    /// Spot shape definition matrix (immutable).
    pub shape: SpotShape,
}

/// World position of a spot: its intrinsic position shifted by its offset.
pub open spec fn spec_spot_world(s: SpotRec) -> (int, int) {
    (
        spec_sat_add(s.position.0 as int, s.offset.0 as int),
        spec_sat_add(s.position.1 as int, s.offset.1 as int),
    )
}

/// Canvas position of a spot: its world position under the view transform.
pub open spec fn spec_spot_canvas_pos(s: SpotRec, view: Transform) -> (int, int) {
    spec_apply(view, spec_spot_world(s))
}

/// Effective peak intensity: intrinsic intensity times illumination factor
/// times global brightness.
pub open spec fn spec_spot_effective_intensity(s: SpotRec, brightness: int) -> int {
    spec_fx_mul(spec_fx_mul(s.intensity as int, s.illumination as int), brightness)
}

/// Determinant of a shape matrix.
pub open spec fn spec_shape_det(sh: SpotShape) -> int {
    spec_sat_sub(
        spec_fx_mul(sh.xx as int, sh.yy as int),
        spec_fx_mul(sh.xy as int, sh.yx as int),
    )
}

/// Conservative X extent of the deformed unit footprint: the magnitude sum
/// of the first shape matrix row (at least the row's Euclidean norm).
pub open spec fn spec_shape_bound_x(sh: SpotShape) -> int {
    spec_sat_add(abs_int(sh.xx as int), abs_int(sh.xy as int))
}

/// Conservative Y extent of the deformed unit footprint: the magnitude sum
/// of the second shape matrix row.
pub open spec fn spec_shape_bound_y(sh: SpotShape) -> int {
    spec_sat_add(abs_int(sh.yx as int), abs_int(sh.yy as int))
}

/// Light contributed by one spot to the cell sampled at pixel `(x, y)`.
///
/// A spot with non-positive effective intensity or a singular shape matrix
/// contributes nothing, and neither does any pixel beyond the shape's
/// per-axis extent from the spot center (where the cone profile has reached
/// zero); otherwise the pixel's radius vector from the spot center is
/// pulled back through the inverse shape matrix and the cone profile is
/// scaled by the effective intensity.
pub open spec fn spec_spot_contribution(
    s: SpotRec,
    view: Transform,
    brightness: int,
    x: int,
    y: int,
) -> int {
    let eff = spec_spot_effective_intensity(s, brightness);
    let det = spec_shape_det(s.shape);
    if eff <= 0 || det == 0 {
        0
    } else {
        let pos = spec_spot_canvas_pos(s, view);
        let dx = spec_sat_sub(x * (FX_ONE as int), pos.0);
        let dy = spec_sat_sub(y * (FX_ONE as int), pos.1);
        if abs_int(dx) > spec_shape_bound_x(s.shape) || abs_int(dy) > spec_shape_bound_y(
            s.shape,
        ) {
            0
        } else {
            let ixx = spec_fx_div(s.shape.yy as int, det);
            let ixy = spec_fx_div(spec_sat_sub(0, s.shape.xy as int), det);
            let iyx = spec_fx_div(spec_sat_sub(0, s.shape.yx as int), det);
            let iyy = spec_fx_div(s.shape.xx as int, det);
            let u = spec_sat_add(spec_fx_mul(ixx, dx), spec_fx_mul(ixy, dy));
            let v = spec_sat_add(spec_fx_mul(iyy, dy), spec_fx_mul(iyx, dx));
            let r2 = spec_sat_add(spec_fx_mul(u, u), spec_fx_mul(v, v));
            if r2 >= FX_ONE {
                0
            } else {
                spec_fx_mul(eff, (FX_ONE as int) - spec_fx_sqrt(r2))
            }
        }
    }
}

/// A fixed-point square is never negative.
proof fn lemma_fx_mul_square_nonneg(u: int)
    ensures
        spec_fx_mul(u, u) >= 0,
{
    assert(u * u >= 0) by (nonlinear_arith);
    assert(abs_int(u * u) == u * u);
    lemma_div_pos_is_pos(u * u, FX_ONE as int);
}

/// Computes the contribution of one spot to the cell at pixel `(x, y)`.
pub fn spot_contribution(
    s: &SpotRec,
    view: &Transform,
    brightness: i64,
    x: u32,
    y: u32,
) -> (r: i64)
    ensures
        r == spec_spot_contribution(*s, *view, brightness as int, x as int, y as int),
{
    let eff: i64 = fx_mul(fx_mul(s.intensity, s.illumination), brightness);
    let det: i64 = sat_sub(fx_mul(s.shape.xx, s.shape.yy), fx_mul(s.shape.xy, s.shape.yx));
    if eff <= 0 || det == 0 {
        return 0;
    }
    let wx: i64 = sat_add(s.position.0, s.offset.0);
    let wy: i64 = sat_add(s.position.1, s.offset.1);
    let pos: Point = view.apply((wx, wy));
    let px: i64 = (x as i64) * FX_ONE;
    let py: i64 = (y as i64) * FX_ONE;
    let dx: i64 = sat_sub(px, pos.0);
    let dy: i64 = sat_sub(py, pos.1);
    let bx: i64 = sat_abs_sum(s.shape.xx, s.shape.xy);
    let by: i64 = sat_abs_sum(s.shape.yx, s.shape.yy);
    if i64_mag(dx) > (bx as u64) || i64_mag(dy) > (by as u64) {
        return 0;
    }
    let ixx: i64 = fx_div(s.shape.yy, det);
    let ixy: i64 = fx_div(sat_sub(0, s.shape.xy), det);
    let iyx: i64 = fx_div(sat_sub(0, s.shape.yx), det);
    let iyy: i64 = fx_div(s.shape.xx, det);
    let u: i64 = sat_add(fx_mul(ixx, dx), fx_mul(ixy, dy));
    let v: i64 = sat_add(fx_mul(iyy, dy), fx_mul(iyx, dx));
    let r2: i64 = sat_add(fx_mul(u, u), fx_mul(v, v));
    if r2 >= FX_ONE {
        0
    } else {
        proof {
            lemma_fx_mul_square_nonneg(u as int);
            lemma_fx_mul_square_nonneg(v as int);
        }
        let rad: i64 = fx_sqrt(r2);
        fx_mul(eff, FX_ONE - rad)
    }
}

/// Light level of a cell after adding, in order, the contributions of a
/// list of spots on top of an initial level.
pub open spec fn spec_render_acc(
    spots: Seq<SpotRec>,
    view: Transform,
    brightness: int,
    x: int,
    y: int,
    init: int,
) -> int
    decreases spots.len(),
{
    if spots.len() == 0 {
        init
    } else {
        spec_sat_add(
            spec_render_acc(spots.drop_last(), view, brightness, x, y, init),
            spec_spot_contribution(spots.last(), view, brightness, x, y),
        )
    }
}

/// The accumulated cell level stays in the `i64` range.
proof fn lemma_render_acc_in_range(
    spots: Seq<SpotRec>,
    view: Transform,
    brightness: int,
    x: int,
    y: int,
    init: int,
)
    requires
        i64::MIN <= init <= i64::MAX,
    ensures
        i64::MIN <= spec_render_acc(spots, view, brightness, x, y, init) <= i64::MAX,
    decreases spots.len(),
{
    if spots.len() > 0 {
        lemma_render_acc_in_range(spots.drop_last(), view, brightness, x, y, init);
    }
}

/// The value of cell `i` after the first `k` spots have been rendered on
/// top of the initial buffer contents.
spec fn spec_cells_after(
    spots: Seq<SpotRec>,
    view: Transform,
    brightness: int,
    width: int,
    init: Seq<i64>,
    k: int,
    i: int,
) -> int {
    spec_render_acc(spots.take(k), view, brightness, i % width, i / width, init[i] as int)
}

/// A row-major cell index decomposes into an in-range row and column.
proof fn lemma_row_of_index(width: int, height: int, i: int)
    requires
        width > 0,
        0 <= i < width * height,
    ensures
        0 <= i / width < height,
        0 <= i % width < width,
        i == (i / width) * width + (i % width),
{
    lemma_fundamental_div_mod(i, width);
    lemma_mod_division_less_than_divisor(i, width);
    lemma_div_pos_is_pos(i, width);
    assert((i / width) * width == width * (i / width)) by (nonlinear_arith);
    assert(i / width < height) by (nonlinear_arith)
        requires
            width > 0,
            i < width * height,
            i == width * (i / width) + (i % width),
            0 <= i % width < width,
    ;
}

/// An in-range row and column form an in-range row-major cell index.
proof fn lemma_index_of_pixel(width: int, height: int, row: int, col: int)
    requires
        0 <= col < width,
        0 <= row < height,
    ensures
        0 <= row * width + col < width * height,
        (row * width + col) / width == row,
        (row * width + col) % width == col,
{
    assert(0 <= row * width + col < width * height) by (nonlinear_arith)
        requires
            0 <= col < width,
            0 <= row < height,
    ;
    lemma_fundamental_div_mod_converse_div(row * width + col, width, row, col);
    lemma_fundamental_div_mod_converse_mod(row * width + col, width, row, col);
}

/// The contiguous range of pixel indices whose fixed-point coordinate lies
/// within `bound` of `center`, clipped to `0..limit`: every clipped pixel
/// outside the returned range is farther than `bound` from the center.
fn pixel_range(center: i64, bound: i64, limit: u32) -> (r: (u32, u32))
    requires
        bound >= 0,
    ensures
        r.0 <= r.1 <= limit,
        forall|p: int|
            0 <= p < limit && !(r.0 <= p < r.1) ==> abs_int(
                #[trigger] spec_sat_sub(p * (FX_ONE as int), center as int),
            ) > bound,
{
    if bound >= 9007199254740992i64 {
        return (0, limit);
    }
    let lo: i64 = match center.checked_sub(bound) {
        Some(v) => v,
        None => {
            return (0, limit);
        },
    };
    let hi: i64 = match center.checked_add(bound) {
        Some(v) => v,
        None => {
            return (0, limit);
        },
    };
    let x0: u32 = if lo <= 0 {
        0
    } else {
        let q: u64 = ((lo as u64) + 1048575) / 1048576;
        if q >= limit as u64 {
            limit
        } else {
            q as u32
        }
    };
    let x1r: u32 = if hi < 0 {
        0
    } else {
        let q: u64 = (hi as u64) / 1048576 + 1;
        if q >= limit as u64 {
            limit
        } else {
            q as u32
        }
    };
    let x1: u32 = if x1r < x0 {
        x0
    } else {
        x1r
    };
    proof {
        let one = FX_ONE as int;
        assert forall|p: int|
            0 <= p < limit && !(x0 <= p < x1) implies abs_int(
            #[trigger] spec_sat_sub(p * one, center as int),
        ) > bound by {
            let t = p * one - center;
            if p < x0 {
                let c = (lo as int + one - 1) / one;
                lemma_fundamental_div_mod(lo as int + one - 1, one);
                assert(p <= c - 1);
                assert((c - 1) * one == one * c - one);
                assert(p * one < lo);
                assert(t < -bound);
                assert(spec_sat_sub(p * one, center as int) == t);
            } else {
                if hi < 0 {
                    assert(t > bound);
                } else {
                    let f = (hi as int) / 1048576;
                    lemma_fundamental_div_mod(hi as int, one);
                    assert(p >= f + 1);
                    assert((f + 1) * one == one * f + one);
                    assert(p * one > hi);
                    assert(t > bound);
                }
                if t > i64::MAX {
                    assert(spec_sat_sub(p * one, center as int) == i64::MAX);
                } else {
                    assert(spec_sat_sub(p * one, center as int) == t);
                }
            }
        }
    }
    (x0, x1)
}

/// Adds the contributions of all spots on top of the current buffer
/// contents: for each spot, the cells of its clipped footprint bounding
/// box, in row-major order.
pub fn render_into(
    cells: &mut Vec<i64>,
    width: u32,
    height: u32,
    spots: &Vec<SpotRec>,
    view: &Transform,
    brightness: i64,
)
    requires
        old(cells)@.len() == (width as int) * (height as int),
    ensures
        final(cells)@.len() == old(cells)@.len(),
        forall|i: int|
            0 <= i < old(cells)@.len() ==> final(cells)@[i] == spec_render_acc(
                spots@,
                *view,
                brightness as int,
                i % (width as int),
                i / (width as int),
                old(cells)@[i] as int,
            ),
{
    let len: usize = cells.len();
    if len == 0 {
        return;
    }
    proof {
        assert(width > 0 && height > 0) by {
            if width == 0 || height == 0 {
                assert((width as int) * (height as int) == 0) by (nonlinear_arith)
                    requires
                        width == 0u32 || height == 0u32,
                ;
            }
        }
    }
    let ghost w = width as int;
    let mut k: usize = 0;
    while k < spots.len()
        invariant
            len == cells@.len(),
            cells@.len() == old(cells)@.len(),
            cells@.len() == (width as int) * (height as int),
            width > 0,
            height > 0,
            w == width as int,
            k <= spots@.len(),
            forall|i: int|
                0 <= i < len ==> cells@[i] == spec_cells_after(
                    spots@,
                    *view,
                    brightness as int,
                    w,
                    old(cells)@,
                    k as int,
                    i,
                ),
        decreases spots@.len() - k,
    {
        let s: SpotRec = spots[k];
        let wx: i64 = sat_add(s.position.0, s.offset.0);
        let wy: i64 = sat_add(s.position.1, s.offset.1);
        let pos: Point = view.apply((wx, wy));
        let bx: i64 = sat_abs_sum(s.shape.xx, s.shape.xy);
        let by: i64 = sat_abs_sum(s.shape.yx, s.shape.yy);
        let xr: (u32, u32) = pixel_range(pos.0, bx, width);
        let yr: (u32, u32) = pixel_range(pos.1, by, height);
        let (x0, x1): (u32, u32) = xr;
        let (y0, y1): (u32, u32) = yr;
        proof {
            assert(spots@.take(k as int + 1).drop_last() =~= spots@.take(k as int));
            assert(spots@.take(k as int + 1).last() == spots@[k as int]);
        }
        let mut y: u32 = y0;
        while y < y1
            invariant
                len == cells@.len(),
                cells@.len() == old(cells)@.len(),
                cells@.len() == (width as int) * (height as int),
                width > 0,
                height > 0,
                w == width as int,
                k < spots@.len(),
                s == spots@[k as int],
                (pos.0 as int, pos.1 as int) == spec_spot_canvas_pos(spots@[k as int], *view),
                bx == spec_shape_bound_x(spots@[k as int].shape),
                by == spec_shape_bound_y(spots@[k as int].shape),
                x0 <= x1 <= width,
                y0 <= y <= y1,
                y1 <= height,
                forall|p: int|
                    0 <= p < width && !(x0 <= p < x1) ==> abs_int(
                        #[trigger] spec_sat_sub(p * (FX_ONE as int), pos.0 as int),
                    ) > bx,
                forall|p: int|
                    0 <= p < height && !(y0 <= p < y1) ==> abs_int(
                        #[trigger] spec_sat_sub(p * (FX_ONE as int), pos.1 as int),
                    ) > by,
                spots@.take(k as int + 1).drop_last() =~= spots@.take(k as int),
                spots@.take(k as int + 1).last() == spots@[k as int],
                forall|i: int|
                    0 <= i < len ==> cells@[i] == (
                    if x0 <= i % w < x1 && y0 <= i / w < y {
                        spec_cells_after(
                            spots@,
                            *view,
                            brightness as int,
                            w,
                            old(cells)@,
                            k as int + 1,
                            i,
                        )
                    } else {
                        spec_cells_after(
                            spots@,
                            *view,
                            brightness as int,
                            w,
                            old(cells)@,
                            k as int,
                            i,
                        )
                    }),
            decreases y1 - y,
        {
            let mut x: u32 = x0;
            while x < x1
                invariant
                    len == cells@.len(),
                    cells@.len() == old(cells)@.len(),
                    cells@.len() == (width as int) * (height as int),
                    width > 0,
                    height > 0,
                    w == width as int,
                    k < spots@.len(),
                    s == spots@[k as int],
                    x0 <= x <= x1,
                    x1 <= width,
                    y0 <= y < y1,
                    y1 <= height,
                    spots@.take(k as int + 1).drop_last() =~= spots@.take(k as int),
                    spots@.take(k as int + 1).last() == spots@[k as int],
                    forall|i: int|
                        0 <= i < len ==> cells@[i] == (
                        if x0 <= i % w < x1 && (y0 <= i / w < y || (i / w == y && x0 <= i % w
                            < x)) {
                            spec_cells_after(
                                spots@,
                                *view,
                                brightness as int,
                                w,
                                old(cells)@,
                                k as int + 1,
                                i,
                            )
                        } else {
                            spec_cells_after(
                                spots@,
                                *view,
                                brightness as int,
                                w,
                                old(cells)@,
                                k as int,
                                i,
                            )
                        }),
                decreases x1 - x,
            {
                proof {
                    lemma_index_of_pixel(w, height as int, y as int, x as int);
                }
                let idx_wide: u64 = (y as u64) * (width as u64) + (x as u64);
                let idx: usize = idx_wide as usize;
                let cur: i64 = cells[idx];
                let amount: i64 = spot_contribution(&s, view, brightness, x, y);
                let newv: i64 = sat_add(cur, amount);
                cells.set(idx, newv);
                proof {
                    assert forall|i: int| 0 <= i < len && i != idx implies !(#[trigger] (i / w)
                        == y as int && i % w == x as int) by {
                        lemma_row_of_index(w, height as int, i);
                    }
                }
                x += 1;
            }
            y += 1;
        }
        proof {
            assert forall|i: int| 0 <= i < len implies cells@[i] == spec_cells_after(
                spots@,
                *view,
                brightness as int,
                w,
                old(cells)@,
                k as int + 1,
                i,
            ) by {
                lemma_row_of_index(w, height as int, i);
                if !(x0 <= i % w < x1 && y0 <= i / w < y1) {
                    assert(spec_spot_contribution(
                        spots@[k as int],
                        *view,
                        brightness as int,
                        i % w,
                        i / w,
                    ) == 0);
                    lemma_render_acc_in_range(
                        spots@.take(k as int),
                        *view,
                        brightness as int,
                        i % w,
                        i / w,
                        old(cells)@[i] as int,
                    );
                }
            }
        }
        k += 1;
    }
    proof {
        assert(spots@.take(spots@.len() as int) =~= spots@);
    }
}

/// Law: a spot with the unit shape and no offset, centered exactly on an
/// integer pixel under the identity view transform, contributes its full
/// effective intensity to that pixel: the profile's peak value equals the
/// effective intensity.
pub proof fn lemma_center_peak(s: SpotRec, brightness: int, x: int, y: int)
    requires
        s.shape == spec_shape_identity(),
        s.offset == (0i64, 0i64),
        s.position.0 == x * (FX_ONE as int),
        s.position.1 == y * (FX_ONE as int),
        spec_spot_effective_intensity(s, brightness) > 0,
    ensures
        spec_spot_contribution(s, spec_transform_identity(), brightness, x, y)
            == spec_spot_effective_intensity(s, brightness),
{
    let one = FX_ONE as int;
    let eff = spec_spot_effective_intensity(s, brightness);
    lemma_fx_mul_one(one);
    lemma_fx_mul_zero(0);
    lemma_fx_mul_zero(one);
    lemma_fx_mul_one(s.position.0 as int);
    lemma_fx_mul_one(s.position.1 as int);
    lemma_fx_mul_zero(s.position.0 as int);
    lemma_fx_mul_zero(s.position.1 as int);
    lemma_trunc_div_exact(one, one);
    lemma_trunc_div_exact(0, one);
    assert(spec_shape_det(s.shape) == one);
    assert(spec_spot_canvas_pos(s, spec_transform_identity()) == (
        s.position.0 as int,
        s.position.1 as int,
    ));
    assert(spec_fx_div(s.shape.yy as int, spec_shape_det(s.shape)) == one);
    assert(spec_fx_div(spec_sat_sub(0, s.shape.xy as int), spec_shape_det(s.shape)) == 0);
    assert(spec_isqrt(0nat) == 0);
    assert(spec_fx_sqrt(0) == 0);
    lemma_fx_mul_one(eff);
}

} // verus!
