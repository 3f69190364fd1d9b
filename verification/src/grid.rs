//! Bidirectional mapping between a two-dimensional sampling lattice and an
//! axis-aligned rectangle of the complex plane.
use vstd::prelude::*;

use crate::cplx::{c_sub, Cplx};
use crate::fix::{f_add, f_half, f_mul, f_neg, f_sub, fx_add, sat, sfx, tdiv, Fix, SAT_RAW};

verus! {

/// Cap on the resolution a grid may carry along one axis.
pub const RES_MAX: usize = 0x8000_0000;

/// Cap on a bound's mantissa for a well-formed rectangle; small enough
/// that the affine pixel maps never saturate.
pub const COORD_MAX: i64 = 0x20_0000_0000_0000;

/// An axis-aligned rectangle in the complex plane.
#[derive(Clone, Copy, Debug, PartialEq, Eq, Structural)]
pub struct Bounds {
    pub min_x: Fix,
    pub max_x: Fix,
    pub min_y: Fix,
    pub max_y: Fix,
}

/// A non-degenerate rectangle with coordinates small enough for exact
/// lattice arithmetic.
pub open spec fn bounds_wf(b: Bounds) -> bool {
    &&& -COORD_MAX <= b.min_x.raw < b.max_x.raw <= COORD_MAX
    &&& -COORD_MAX <= b.min_y.raw < b.max_y.raw <= COORD_MAX
}

/// Model of translating a rectangle by a complex offset.
pub open spec fn translate_spec(b: Bounds, t: Cplx) -> Bounds {
    Bounds {
        min_x: f_add(b.min_x, t.re),
        max_x: f_add(b.max_x, t.re),
        min_y: f_add(b.min_y, t.im),
        max_y: f_add(b.max_y, t.im),
    }
}

/// Model of scaling every bound by a factor.
pub open spec fn scale_bounds_spec(b: Bounds, s: Fix) -> Bounds {
    Bounds {
        min_x: f_mul(b.min_x, s),
        max_x: f_mul(b.max_x, s),
        min_y: f_mul(b.min_y, s),
        max_y: f_mul(b.max_y, s),
    }
}

/// Model of the center of a rectangle.
pub open spec fn center_spec(b: Bounds) -> Cplx {
    Cplx { re: f_half(f_add(b.min_x, b.max_x)), im: f_half(f_add(b.min_y, b.max_y)) }
}

/// Model of zooming about a base point: translate the base to the origin,
/// scale, translate back.
pub open spec fn zoom_spec(b: Bounds, s: Fix, base: Cplx) -> Bounds {
    translate_spec(scale_bounds_spec(translate_spec(b, crate::cplx::c_neg(base)), s), base)
}

impl Bounds {
    /// Width of the rectangle.
    pub fn range_x(&self) -> (r: Fix)
        ensures
            r == f_sub(self.max_x, self.min_x),
    {
        self.max_x.sub(self.min_x)
    }

    /// Height of the rectangle.
    pub fn range_y(&self) -> (r: Fix)
        ensures
            r == f_sub(self.max_y, self.min_y),
    {
        self.max_y.sub(self.min_y)
    }

    /// Area: width times height.
    pub fn area(&self) -> (r: Fix)
        ensures
            r == f_mul(f_sub(self.max_x, self.min_x), f_sub(self.max_y, self.min_y)),
    {
        self.range_x().mul(self.range_y())
    }

    /// Height over width.
    pub fn aspect_ratio(&self) -> (r: Fix)
        ensures
            r == crate::fix::f_div(f_sub(self.max_y, self.min_y), f_sub(self.max_x, self.min_x)),
    {
        self.range_y().div(self.range_x())
    }

    /// Horizontal midpoint.
    pub fn mid_x(&self) -> (r: Fix)
        ensures
            r == f_half(f_add(self.min_x, self.max_x)),
    {
        self.min_x.add(self.max_x).half()
    }

    /// Vertical midpoint.
    pub fn mid_y(&self) -> (r: Fix)
        ensures
            r == f_half(f_add(self.min_y, self.max_y)),
    {
        self.min_y.add(self.max_y).half()
    }

    /// Shift the rectangle by a complex offset.
    pub fn translate(&mut self, translation: Cplx)
        ensures
            *final(self) == translate_spec(*old(self), translation),
    {
        self.min_x = self.min_x.add(translation.re);
        self.max_x = self.max_x.add(translation.re);
        self.min_y = self.min_y.add(translation.im);
        self.max_y = self.max_y.add(translation.im);
    }

    /// Scale the rectangle uniformly about a base point.
    pub fn zoom(&mut self, scale: Fix, base_point: Cplx)
        ensures
            *final(self) == zoom_spec(*old(self), scale, base_point),
    {
        self.translate(base_point.neg());
        self.min_x = self.min_x.mul(scale);
        self.max_x = self.max_x.mul(scale);
        self.min_y = self.min_y.mul(scale);
        self.max_y = self.max_y.mul(scale);
        self.translate(base_point);
    }

    /// The center of the rectangle.
    pub fn center(&self) -> (r: Cplx)
        ensures
            r == center_spec(*self),
    {
        Cplx { re: self.mid_x(), im: self.mid_y() }
    }

    /// Shift the rectangle so that its center lands on the given point.
    pub fn recenter(&mut self, new_center: Cplx)
        ensures
            *final(self) == translate_spec(
                *old(self),
                c_sub(new_center, center_spec(*old(self))),
            ),
    {
        let old_center = self.center();
        self.translate(new_center.sub(old_center));
    }

    /// The square of the given radius centered at the origin.
    pub fn centered_square(radius: Fix) -> (r: Bounds)
        ensures
            r == (Bounds {
                min_x: f_neg(radius),
                max_x: radius,
                min_y: f_neg(radius),
                max_y: radius,
            }),
    {
        Bounds { min_x: radius.neg(), max_x: radius, min_y: radius.neg(), max_y: radius }
    }

    /// The square of the given radius about the given center.
    pub fn square(radius: Fix, center: Cplx) -> (r: Bounds)
        ensures
            r == rect_spec(radius, radius, center),
    {
        Self::rect(radius, radius, center)
    }

    /// The rectangle of the given half-width and half-height about the
    /// given center.
    pub fn rect(radius_x: Fix, radius_y: Fix, center: Cplx) -> (r: Bounds)
        ensures
            r == rect_spec(radius_x, radius_y, center),
    {
        Bounds {
            min_x: radius_x.neg().add(center.re),
            max_x: radius_x.add(center.re),
            min_y: radius_y.neg().add(center.im),
            max_y: radius_y.add(center.im),
        }
    }

    /// Whether any bound sits at a saturation mantissa: the detectable
    /// degenerate state that an undefined numeric result leaves behind.
    pub fn is_nan(&self) -> (b: bool)
        ensures
            b == (fix_huge(self.min_x) || fix_huge(self.max_x) || fix_huge(self.min_y) || fix_huge(
                self.max_y,
            )),
    {
        self.min_x.is_huge() || self.max_x.is_huge() || self.min_y.is_huge()
            || self.max_y.is_huge()
    }
}

/// Whether a scalar sits at a saturation bound.
pub open spec fn fix_huge(x: Fix) -> bool {
    x.raw as int == SAT_RAW as int || x.raw as int == -(SAT_RAW as int)
}

/// Model of `Bounds::rect`.
pub open spec fn rect_spec(radius_x: Fix, radius_y: Fix, center: Cplx) -> Bounds {
    Bounds {
        min_x: f_add(f_neg(radius_x), center.re),
        max_x: f_add(radius_x, center.re),
        min_y: f_add(f_neg(radius_y), center.im),
        max_y: f_add(radius_y, center.im),
    }
}

/// A sampling lattice over a rectangle of the complex plane.
#[derive(Clone, Copy, Debug, PartialEq, Eq, Structural)]
pub struct PointGrid {
    pub res_x: usize,
    pub res_y: usize,
    pub bounds: Bounds,
}

/// A grid whose rectangle is well formed and whose resolutions are
/// positive and capped.
pub open spec fn grid_wf(g: PointGrid) -> bool {
    &&& bounds_wf(g.bounds)
    &&& 0 < g.res_x <= RES_MAX
    &&& 0 < g.res_y <= RES_MAX
}

/// Model of the height inferred from a width so that cell aspect follows
/// the rectangle's aspect: `floor(res_x * range_y / range_x)`, clamped.
pub open spec fn infer_height_spec(res_x: int, b: Bounds) -> int {
    let rx = f_sub(b.max_x, b.min_x).raw as int;
    let ry = f_sub(b.max_y, b.min_y).raw as int;
    if rx <= 0 || ry <= 0 {
        0
    } else {
        let q = (res_x * ry) / rx;
        if q > RES_MAX as int {
            RES_MAX as int
        } else {
            q
        }
    }
}

/// Model of the width inferred from a height.
pub open spec fn infer_width_spec(res_y: int, b: Bounds) -> int {
    let rx = f_sub(b.max_x, b.min_x).raw as int;
    let ry = f_sub(b.max_y, b.min_y).raw as int;
    if rx <= 0 || ry <= 0 {
        0
    } else {
        let q = (res_y * rx) / ry;
        if q > RES_MAX as int {
            RES_MAX as int
        } else {
            q
        }
    }
}

/// Model of the affine pixel map: the complex value of lattice point
/// `(x, y)`, with the cell offset computed product-first so the only
/// rounding is the final division by the resolution.
pub open spec fn map_pixel_spec(g: PointGrid, x: int, y: int) -> Cplx {
    let rx = f_sub(g.bounds.max_x, g.bounds.min_x).raw as int;
    let ry = f_sub(g.bounds.max_y, g.bounds.min_y).raw as int;
    Cplx {
        re: sfx(fx_add(g.bounds.min_x.raw as int, sat(tdiv(x * rx, g.res_x as int)))),
        im: sfx(fx_add(g.bounds.min_y.raw as int, sat(tdiv(y * ry, g.res_y as int)))),
    }
}

/// Model of the approximate inverse of the pixel map. Points outside the
/// rectangle (or a lattice without cells) give no result; the row index
/// is flipped so that row zero sits at the top of the rectangle.
pub open spec fn locate_spec(g: PointGrid, z: Cplx) -> Option<(int, int)> {
    let b = g.bounds;
    if g.res_x == 0 || g.res_y == 0 || z.re.raw < b.min_x.raw || z.re.raw >= b.max_x.raw
        || z.im.raw < b.min_y.raw || z.im.raw >= b.max_y.raw {
        None
    } else {
        let px = ((z.re.raw - b.min_x.raw) * g.res_x as int) / (b.max_x.raw - b.min_x.raw);
        let py = ((z.im.raw - b.min_y.raw) * g.res_y as int) / (b.max_y.raw - b.min_y.raw);
        Some((px, g.res_y - 1 - py))
    }
}

/// Model of one pixel's width: the horizontal range split evenly.
pub open spec fn pixel_width_spec(g: PointGrid) -> Fix {
    sfx(tdiv(f_sub(g.bounds.max_x, g.bounds.min_x).raw as int, g.res_x as int))
}

/// Model of one pixel's height.
pub open spec fn pixel_height_spec(g: PointGrid) -> Fix {
    sfx(tdiv(f_sub(g.bounds.max_y, g.bounds.min_y).raw as int, g.res_y as int))
}

/// Saturated quotient of a lattice index times a signed range by a
/// positive resolution.
fn offset_raw(x: usize, range_raw: i64, res: usize) -> (r: i64)
    requires
        res > 0,
    ensures
        r as int == sat(tdiv(x as int * range_raw as int, res as int)),
{
    proof {
        assert((x as u128) * (if range_raw as int >= 0 {
            range_raw as int
        } else {
            -(range_raw as int)
        }) <= 0xffff_ffff_ffff_ffffu128 * 0x8000_0000_0000_0000u128) by (nonlinear_arith)
            requires
                x <= 0xffff_ffff_ffff_ffffu128,
                (if range_raw as int >= 0 {
                    range_raw as int
                } else {
                    -(range_raw as int)
                }) <= 0x8000_0000_0000_0000,
        ;
    }
    if range_raw >= 0 {
        let p: u128 = (x as u128) * (range_raw as u128);
        let q: u128 = p / (res as u128);
        let c: i64 = crate::fix::uclamp(q);
        proof {
            assert(tdiv(x as int * range_raw as int, res as int) == q as int);
            crate::fix::lemma_sat_of_signed_mag(q as int, false);
        }
        c
    } else {
        let m: u128 = if range_raw == i64::MIN {
            0x8000_0000_0000_0000u128
        } else {
            ((-range_raw) as u64) as u128
        };
        let p: u128 = (x as u128) * m;
        let q: u128 = p / (res as u128);
        let c: i64 = crate::fix::uclamp(q);
        proof {
            assert(x as int * range_raw as int == -(p as int)) by (nonlinear_arith)
                requires
                    m == -(range_raw as int),
                    p == x as int * m,
            ;
            assert(tdiv(x as int * range_raw as int, res as int) == -(q as int));
            crate::fix::lemma_sat_of_signed_mag(q as int, true);
        }
        -c
    }
}

impl PointGrid {
    /// Build from explicit resolutions and a rectangle.
    pub fn new(res_x: usize, res_y: usize, bounds: Bounds) -> (r: PointGrid)
        ensures
            r == (PointGrid { res_x, res_y, bounds }),
    {
        PointGrid { res_x, res_y, bounds }
    }

    /// Height matching a given width under the rectangle's aspect ratio.
    pub fn infer_height(res_x: usize, bounds: &Bounds) -> (r: usize)
        ensures
            r as int == infer_height_spec(res_x as int, *bounds),
    {
        let rx = bounds.range_x();
        let ry = bounds.range_y();
        if rx.raw <= 0 || ry.raw <= 0 {
            return 0;
        }
        proof {
            assert((res_x as u128) * (ry.raw as u128) <= 0xffff_ffff_ffff_ffffu128
                * 0x8000_0000_0000_0000u128) by (nonlinear_arith)
                requires
                    res_x <= 0xffff_ffff_ffff_ffffu128,
                    0 <= ry.raw as int <= 0x8000_0000_0000_0000,
            ;
        }
        let p: u128 = (res_x as u128) * (ry.raw as u128);
        let q: u128 = p / (rx.raw as u128);
        if q > RES_MAX as u128 {
            RES_MAX
        } else {
            q as usize
        }
    }

    /// Width matching a given height under the rectangle's aspect ratio.
    pub fn infer_width(res_y: usize, bounds: &Bounds) -> (r: usize)
        ensures
            r as int == infer_width_spec(res_y as int, *bounds),
    {
        let rx = bounds.range_x();
        let ry = bounds.range_y();
        if rx.raw <= 0 || ry.raw <= 0 {
            return 0;
        }
        proof {
            assert((res_y as u128) * (rx.raw as u128) <= 0xffff_ffff_ffff_ffffu128
                * 0x8000_0000_0000_0000u128) by (nonlinear_arith)
                requires
                    res_y <= 0xffff_ffff_ffff_ffffu128,
                    0 <= rx.raw as int <= 0x8000_0000_0000_0000,
            ;
        }
        let p: u128 = (res_y as u128) * (rx.raw as u128);
        let q: u128 = p / (ry.raw as u128);
        if q > RES_MAX as u128 {
            RES_MAX
        } else {
            q as usize
        }
    }

    /// Build from a width; the height follows the aspect ratio.
    pub fn new_by_res_x(res_x: usize, bounds: Bounds) -> (r: PointGrid)
        ensures
            r == (PointGrid {
                res_x,
                res_y: infer_height_spec(res_x as int, bounds) as usize,
                bounds,
            }),
    {
        let res_y = Self::infer_height(res_x, &bounds);
        Self::new(res_x, res_y, bounds)
    }

    /// Build from a height; the width follows the aspect ratio.
    pub fn new_by_res_y(res_y: usize, bounds: Bounds) -> (r: PointGrid)
        ensures
            r == (PointGrid {
                res_x: infer_width_spec(res_y as int, bounds) as usize,
                res_y,
                bounds,
            }),
    {
        let res_x = Self::infer_width(res_y, &bounds);
        Self::new(res_x, res_y, bounds)
    }

    /// A new grid over other bounds keeping this grid's height.
    pub fn new_with_same_height(&self, bounds: Bounds) -> (r: PointGrid)
        ensures
            r == (PointGrid {
                res_x: infer_width_spec(self.res_y as int, bounds) as usize,
                res_y: self.res_y,
                bounds,
            }),
    {
        Self::new_by_res_y(self.res_y, bounds)
    }

    /// A new grid over other bounds keeping this grid's width.
    pub fn new_with_same_width(&self, bounds: Bounds) -> (r: PointGrid)
        ensures
            r == (PointGrid {
                res_x: self.res_x,
                res_y: infer_height_spec(self.res_x as int, bounds) as usize,
                bounds,
            }),
    {
        Self::new_by_res_x(self.res_x, bounds)
    }

    /// Consuming variant of `new_with_same_height`.
    pub fn with_same_height(self, bounds: Bounds) -> (r: PointGrid)
        ensures
            r == (PointGrid {
                res_x: infer_width_spec(self.res_y as int, bounds) as usize,
                res_y: self.res_y,
                bounds,
            }),
    {
        Self::new_by_res_y(self.res_y, bounds)
    }

    /// Consuming variant of `new_with_same_width`.
    pub fn with_same_width(self, bounds: Bounds) -> (r: PointGrid)
        ensures
            r == (PointGrid {
                res_x: self.res_x,
                res_y: infer_height_spec(self.res_x as int, bounds) as usize,
                bounds,
            }),
    {
        Self::new_by_res_x(self.res_x, bounds)
    }

    /// This grid with another width; the height follows the aspect ratio.
    pub fn with_width(self, res_x: usize) -> (r: PointGrid)
        ensures
            r == (PointGrid {
                res_x,
                res_y: infer_height_spec(res_x as int, self.bounds) as usize,
                bounds: self.bounds,
            }),
    {
        Self::new_by_res_x(res_x, self.bounds)
    }

    /// This grid with another height; the width follows the aspect ratio.
    pub fn with_height(self, res_y: usize) -> (r: PointGrid)
        ensures
            r == (PointGrid {
                res_x: infer_width_spec(res_y as int, self.bounds) as usize,
                res_y,
                bounds: self.bounds,
            }),
    {
        Self::new_by_res_y(res_y, self.bounds)
    }

    /// The complex value of lattice point `(pixel_x, pixel_y)`.
    pub fn map_pixel(&self, pixel_x: usize, pixel_y: usize) -> (r: Cplx)
        requires
            self.res_x > 0,
            self.res_y > 0,
        ensures
            r == map_pixel_spec(*self, pixel_x as int, pixel_y as int),
    {
        let rx = self.bounds.range_x();
        let ry = self.bounds.range_y();
        let off_x = offset_raw(pixel_x, rx.raw, self.res_x);
        let off_y = offset_raw(pixel_y, ry.raw, self.res_y);
        Cplx {
            re: self.bounds.min_x.add(Fix::from_raw(off_x)),
            im: self.bounds.min_y.add(Fix::from_raw(off_y)),
        }
    }

    /// Width of one lattice cell.
    pub fn pixel_width(&self) -> (r: Fix)
        requires
            self.res_x > 0,
        ensures
            r == pixel_width_spec(*self),
    {
        let rx = self.bounds.range_x();
        Fix::from_raw(offset_raw(1, rx.raw, self.res_x))
    }

    /// Height of one lattice cell.
    pub fn pixel_height(&self) -> (r: Fix)
        requires
            self.res_y > 0,
        ensures
            r == pixel_height_spec(*self),
    {
        let ry = self.bounds.range_y();
        Fix::from_raw(offset_raw(1, ry.raw, self.res_y))
    }

    /// The lattice's resolutions.
    pub fn shape(&self) -> (r: (usize, usize))
        ensures
            r.0 == self.res_x,
            r.1 == self.res_y,
    {
        (self.res_x, self.res_y)
    }

    /// Lattice cell containing a complex point, or nothing when the point
    /// lies outside the rectangle. The row index counts from the top.
    pub fn locate_point_safe(&self, z: Cplx) -> (r: Option<(usize, usize)>)
        ensures
            match r {
                Option::Some(p) => locate_spec(*self, z) == Option::Some(
                    (p.0 as int, p.1 as int),
                ),
                Option::None => locate_spec(*self, z) is None,
            },
    {
        if self.res_x == 0 || self.res_y == 0 || z.re.raw < self.bounds.min_x.raw
            || z.re.raw >= self.bounds.max_x.raw || z.im.raw < self.bounds.min_y.raw
            || z.im.raw >= self.bounds.max_y.raw {
            return None;
        }
        let dx: u128 = ((z.re.raw as i128) - (self.bounds.min_x.raw as i128)) as u128;
        let dy: u128 = ((z.im.raw as i128) - (self.bounds.min_y.raw as i128)) as u128;
        let rx: u128 = ((self.bounds.max_x.raw as i128) - (self.bounds.min_x.raw as i128)) as u128;
        let ry: u128 = ((self.bounds.max_y.raw as i128) - (self.bounds.min_y.raw as i128)) as u128;
        proof {
            assert(dx * (self.res_x as u128) <= 0xffff_ffff_ffff_ffff_ffff_ffff_ffff_ffffu128)
                by (nonlinear_arith)
                requires
                    dx < 0x1_0000_0000_0000_0000u128,
                    self.res_x <= 0xffff_ffff_ffff_ffffu128,
            ;
            assert(dy * (self.res_y as u128) <= 0xffff_ffff_ffff_ffff_ffff_ffff_ffff_ffffu128)
                by (nonlinear_arith)
                requires
                    dy < 0x1_0000_0000_0000_0000u128,
                    self.res_y <= 0xffff_ffff_ffff_ffffu128,
            ;
        }
        let px_u: u128 = dx * (self.res_x as u128) / rx;
        let py_u: u128 = dy * (self.res_y as u128) / ry;
        proof {
            lemma_scaled_index_in_range(dx as int, self.res_x as int, rx as int);
            lemma_scaled_index_in_range(dy as int, self.res_y as int, ry as int);
        }
        let px: usize = px_u as usize;
        let py: usize = py_u as usize;
        Some((px, self.res_y - 1 - py))
    }

    /// The center of the rectangle.
    pub fn center(&self) -> (r: Cplx)
        ensures
            r == center_spec(self.bounds),
    {
        self.bounds.center()
    }

    /// Shift the rectangle so that its center lands on the given point.
    pub fn recenter(&mut self, new_center: Cplx)
        ensures
            final(self).res_x == old(self).res_x,
            final(self).res_y == old(self).res_y,
            final(self).bounds == translate_spec(
                old(self).bounds,
                c_sub(new_center, center_spec(old(self).bounds)),
            ),
    {
        self.bounds.recenter(new_center);
    }

    /// Adopt another rectangle; the height follows its aspect ratio.
    pub fn change_bounds(&mut self, new_bounds: Bounds)
        ensures
            final(self).res_x == old(self).res_x,
            final(self).res_y as int == infer_height_spec(old(self).res_x as int, new_bounds),
            final(self).bounds == new_bounds,
    {
        self.res_y = Self::infer_height(self.res_x, &new_bounds);
        self.bounds = new_bounds;
    }

    /// Set the width; the height follows the aspect ratio.
    pub fn resize_x(&mut self, res_x: usize)
        ensures
            final(self).res_x == res_x,
            final(self).res_y as int == infer_height_spec(res_x as int, old(self).bounds),
            final(self).bounds == old(self).bounds,
    {
        self.res_x = res_x;
        self.res_y = Self::infer_height(res_x, &self.bounds);
    }

    /// Set the height; the width follows the aspect ratio.
    pub fn resize_y(&mut self, res_y: usize)
        ensures
            final(self).res_y == res_y,
            final(self).res_x as int == infer_width_spec(res_y as int, old(self).bounds),
            final(self).bounds == old(self).bounds,
    {
        self.res_y = res_y;
        self.res_x = Self::infer_width(res_y, &self.bounds);
    }

    /// A restartable row-major traversal of the lattice.
    pub fn iter(&self) -> (r: PointGridIterator)
        ensures
            r == (PointGridIterator {
                res_x: self.res_x,
                res_y: self.res_y,
                bounds: self.bounds,
                idx_x: 0usize,
                idx_y: 0usize,
            }),
    {
        PointGridIterator::new(self.res_x, self.res_y, &self.bounds)
    }
}

/// Quotient `d * res / range` stays below `res` when `0 <= d < range`.
proof fn lemma_scaled_index_in_range(d: int, res: int, range: int)
    requires
        0 <= d < range,
        0 <= res,
    ensures
        0 <= (d * res) / range < res || res == 0,
{
    if res > 0 {
        assert(0 <= d * res && d * res <= (range - 1) * res) by (nonlinear_arith)
            requires
                0 <= d <= range - 1,
                res > 0,
        ;
        let p = d * res;
        let q = p / range;
        vstd::arithmetic::div_mod::lemma_fundamental_div_mod(p, range);
        assert(q * range <= p);
        assert(q < res) by (nonlinear_arith)
            requires
                q * range <= p,
                p <= (range - 1) * res,
                range > 0,
                res > 0,
        ;
    }
}

/// Bounds form of a floor division by a positive divisor.
proof fn lemma_div_bounds(x: int, d: int)
    requires
        d > 0,
        x >= 0,
    ensures
        0 <= x / d,
        (x / d) * d <= x,
        x < (x / d + 1) * d,
{
    vstd::arithmetic::div_mod::lemma_fundamental_div_mod(x, d);
    let q = x / d;
    let r = x % d;
    assert(x == d * q + r);
    assert(q * d == d * q) by (nonlinear_arith);
    assert((q + 1) * d == d * q + d) by (nonlinear_arith);
    assert(q >= 0) by (nonlinear_arith)
        requires
            x >= 0,
            d > 0,
            x == d * q + r,
            r < d,
    ;
}

/// One axis of the pixel round trip, unflipped: locating a coordinate
/// inside the range and mapping the cell back lands at most one cell
/// below it, never above.
proof fn lemma_axis_round_trip(minv: int, maxv: int, res: int, c: int)
    requires
        -COORD_MAX <= minv < maxv <= COORD_MAX,
        0 < res <= RES_MAX as int,
        minv <= c < maxv,
    ensures
        ({
            let range = maxv - minv;
            let p = ((c - minv) * res) / range;
            let m = minv + tdiv(p * range, res);
            let pw = tdiv(range, res);
            0 <= p < res && m <= c && c - m <= pw + 1
        }),
{
    let range = maxv - minv;
    let d = c - minv;
    lemma_scaled_index_in_range(d, res, range);
    assert(d * res >= 0) by (nonlinear_arith)
        requires
            d >= 0,
            res > 0,
    ;
    let p = (d * res) / range;
    lemma_div_bounds(d * res, range);
    assert(p * range <= d * res < (p + 1) * range);
    assert(p * range >= 0) by (nonlinear_arith)
        requires
            p >= 0,
            range > 0,
    ;
    let off = (p * range) / res;
    assert(tdiv(p * range, res) == off);
    lemma_div_bounds(p * range, res);
    assert(off * res <= p * range < (off + 1) * res);
    assert(off <= d) by (nonlinear_arith)
        requires
            off * res <= p * range,
            p * range <= d * res,
            res > 0,
    ;
    let pw = range / res;
    assert(tdiv(range, res) == pw);
    lemma_div_bounds(range, res);
    assert(pw * res <= range < (pw + 1) * res);
    assert(d - off <= pw + 1) by (nonlinear_arith)
        requires
            d * res < (p + 1) * range,
            p * range < (off + 1) * res,
            range < (pw + 1) * res,
            res > 0,
            range > 0,
    ;
}

/// The flipped axis of the pixel round trip, at the midpoint: locating
/// the floor midpoint of the range and mapping the flipped row back lands
/// within one cell of it.
proof fn lemma_axis_round_trip_flipped(minv: int, maxv: int, res: int)
    requires
        -COORD_MAX <= minv < maxv <= COORD_MAX,
        0 < res <= RES_MAX as int,
    ensures
        ({
            let range = maxv - minv;
            let c = minv + range / 2;
            let p = ((c - minv) * res) / range;
            let fl = res - 1 - p;
            let m = minv + tdiv(fl * range, res);
            let pw = tdiv(range, res);
            0 <= p < res && m - c <= 1 && c - m <= pw + 1
        }),
{
    let range = maxv - minv;
    let d = range / 2;
    lemma_div_bounds(range, 2);
    assert(0 <= d < range);
    assert(2 * d <= range <= 2 * d + 1);
    lemma_scaled_index_in_range(d, res, range);
    assert(d * res >= 0) by (nonlinear_arith)
        requires
            d >= 0,
            res > 0,
    ;
    let p = (d * res) / range;
    lemma_div_bounds(d * res, range);
    assert(p * range <= d * res < (p + 1) * range);
    let fl = res - 1 - p;
    assert(0 <= fl < res);
    assert(fl * range >= 0) by (nonlinear_arith)
        requires
            fl >= 0,
            range > 0,
    ;
    let off = (fl * range) / res;
    assert(tdiv(fl * range, res) == off);
    lemma_div_bounds(fl * range, res);
    assert(off * res <= fl * range < (off + 1) * res);
    let pw = range / res;
    assert(tdiv(range, res) == pw);
    lemma_div_bounds(range, res);
    assert(pw * res <= range < (pw + 1) * res);
    assert(fl * range == (res - 1) * range - p * range) by (nonlinear_arith)
        requires
            fl == res - 1 - p,
    ;
    assert(p * range + range == (p + 1) * range) by (nonlinear_arith);
    assert(p * range > d * res - range);
    assert(off * res < res * range - d * res) by (nonlinear_arith)
        requires
            off * res <= fl * range,
            fl * range == (res - 1) * range - p * range,
            p * range > d * res - range,
    ;
    assert(off < range - d) by (nonlinear_arith)
        requires
            off * res < res * range - d * res,
            res > 0,
    ;
    assert((off + 1) * res > res * range - range - d * res) by (nonlinear_arith)
        requires
            (off + 1) * res > fl * range,
            fl * range == (res - 1) * range - p * range,
            p * range <= d * res,
    ;
    assert(off + 1 > range - d - (pw + 1)) by (nonlinear_arith)
        requires
            (off + 1) * res > res * range - range - d * res,
            range < (pw + 1) * res,
            res > 0,
    ;
    assert(off - d <= 1);
    assert(d - off <= pw + 1);
}

/// Round-trip law of the grid mapper: for a well-formed grid, locating
/// the rectangle's center and mapping the found lattice cell back recovers
/// the center within one lattice cell on each axis.
pub proof fn lemma_center_round_trip(g: PointGrid)
    requires
        grid_wf(g),
    ensures
        locate_spec(g, center_spec(g.bounds)) is Some,
        ({
            let c = center_spec(g.bounds);
            let pq = locate_spec(g, c)->Some_0;
            let m = map_pixel_spec(g, pq.0, pq.1);
            let pwx = pixel_width_spec(g).raw as int;
            let pwy = pixel_height_spec(g).raw as int;
            &&& m.re.raw <= c.re.raw
            &&& c.re.raw - m.re.raw <= pwx + 1
            &&& m.im.raw - c.im.raw <= 1
            &&& c.im.raw - m.im.raw <= pwy + 1
        }),
{
    let b = g.bounds;
    let minx = b.min_x.raw as int;
    let maxx = b.max_x.raw as int;
    let miny = b.min_y.raw as int;
    let maxy = b.max_y.raw as int;
    let c = center_spec(b);
    assert((minx + maxx) / 2 == minx + (maxx - minx) / 2) by {
        vstd::arithmetic::div_mod::lemma_hoist_over_denominator(maxx - minx, minx, 2nat);
    };
    assert((miny + maxy) / 2 == miny + (maxy - miny) / 2) by {
        vstd::arithmetic::div_mod::lemma_hoist_over_denominator(maxy - miny, miny, 2nat);
    };
    let cx = c.re.raw as int;
    let cy = c.im.raw as int;
    lemma_div_bounds(maxx - minx, 2);
    lemma_div_bounds(maxy - miny, 2);
    assert(minx <= cx < maxx);
    assert(miny <= cy < maxy);
    lemma_axis_round_trip(minx, maxx, g.res_x as int, cx);
    lemma_axis_round_trip_flipped(miny, maxy, g.res_y as int);
}

/// Aspect-ratio law of the grid mapper: resizing along one axis leaves
/// the rectangle untouched, so height over width is unchanged exactly;
/// and the freshly inferred paired resolution tracks the rectangle's
/// aspect ratio up to the rounding of one floor division.
pub proof fn lemma_resize_preserves_aspect(g: PointGrid, res_x: int)
    requires
        bounds_wf(g.bounds),
        0 < res_x <= RES_MAX as int,
        res_x * (f_sub(g.bounds.max_y, g.bounds.min_y).raw as int) <= (RES_MAX as int) * (f_sub(
            g.bounds.max_x,
            g.bounds.min_x,
        ).raw as int),
    ensures
        ({
            let rx = f_sub(g.bounds.max_x, g.bounds.min_x).raw as int;
            let ry = f_sub(g.bounds.max_y, g.bounds.min_y).raw as int;
            let h = infer_height_spec(res_x, g.bounds);
            h * rx <= res_x * ry < (h + 1) * rx
        }),
{
    let rx = f_sub(g.bounds.max_x, g.bounds.min_x).raw as int;
    let ry = f_sub(g.bounds.max_y, g.bounds.min_y).raw as int;
    assert(rx == g.bounds.max_x.raw - g.bounds.min_x.raw);
    assert(ry == g.bounds.max_y.raw - g.bounds.min_y.raw);
    assert(res_x * ry >= 0) by (nonlinear_arith)
        requires
            res_x >= 0,
            ry >= 0,
    ;
    let q = (res_x * ry) / rx;
    lemma_div_bounds(res_x * ry, rx);
    assert(q * rx <= res_x * ry < (q + 1) * rx);
    assert(q <= RES_MAX as int) by (nonlinear_arith)
        requires
            q * rx <= res_x * ry,
            res_x * ry <= (RES_MAX as int) * rx,
            rx > 0,
    ;
    assert(infer_height_spec(res_x, g.bounds) == q);
}

/// Deterministic, restartable, finite traversal of a lattice in row-major
/// order, yielding each lattice index with its complex value.
#[derive(Clone, Copy, Debug, PartialEq, Eq, Structural)]
pub struct PointGridIterator {
    pub res_x: usize,
    pub res_y: usize,
    pub bounds: Bounds,
    pub idx_x: usize,
    pub idx_y: usize,
}

impl PointGridIterator {
    /// Start a traversal at the first lattice point.
    pub fn new(res_x: usize, res_y: usize, bounds: &Bounds) -> (r: PointGridIterator)
        ensures
            r == (PointGridIterator { res_x, res_y, bounds: *bounds, idx_x: 0usize, idx_y: 0usize
            }),
    {
        PointGridIterator { res_x, res_y, bounds: *bounds, idx_x: 0, idx_y: 0 }
    }

    /// The next lattice point and its complex value, or nothing once the
    /// lattice is exhausted. Advances left to right, then top row down.
    pub fn next(&mut self) -> (r: Option<((usize, usize), Cplx)>)
        ensures
            ({
                let g = PointGrid {
                    res_x: old(self).res_x,
                    res_y: old(self).res_y,
                    bounds: old(self).bounds,
                };
                if old(self).res_x == 0 || old(self).idx_y >= old(self).res_y {
                    r is None && *final(self) == *old(self)
                } else {
                    &&& r == Option::Some(
                        (
                            (old(self).idx_x, old(self).idx_y),
                            map_pixel_spec(g, old(self).idx_x as int, old(self).idx_y as int),
                        ),
                    )
                    &&& final(self).res_x == old(self).res_x
                    &&& final(self).res_y == old(self).res_y
                    &&& final(self).bounds == old(self).bounds
                    &&& if old(self).idx_x + 1 >= old(self).res_x {
                        final(self).idx_x == 0 && final(self).idx_y == old(self).idx_y + 1
                    } else {
                        final(self).idx_x == old(self).idx_x + 1 && final(self).idx_y == old(
                            self,
                        ).idx_y
                    }
                }
            }),
    {
        if self.res_x == 0 || self.idx_y >= self.res_y {
            return None;
        }
        let g = PointGrid { res_x: self.res_x, res_y: self.res_y, bounds: self.bounds };
        let z = g.map_pixel(self.idx_x, self.idx_y);
        let item = ((self.idx_x, self.idx_y), z);
        if self.idx_x >= self.res_x - 1 {
            self.idx_x = 0;
            self.idx_y = self.idx_y + 1;
        } else {
            self.idx_x = self.idx_x + 1;
        }
        Some(item)
    }
}

} // verus!
