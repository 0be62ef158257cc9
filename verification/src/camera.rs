use vstd::prelude::*;
use crate::rat::{q_add, q_eq, q_mul, q_neg, q_wf, rat_v, rat_wf, Rat};

verus! {

/// Upper bound the library imposes on the zoom factor, in thousandths, so
/// that projection denominators stay well inside the integer range.
pub const MAX_ZOOM_MILLI: i64 = 1_000_000_000;

/// Upper bound on the far plane depth, in thousandths.
pub const MAX_DEPTH_MILLI: i64 = 1_000_000;

pub const DEFAULT_ZOOM_MILLI: i64 = 1000;

pub const DEFAULT_NEAR_MILLI: i64 = 100;

pub const DEFAULT_FAR_MILLI: i64 = 10_000;

/// A view-projection transform of the shape an orthographic 2D camera
/// produces: independent scales on x, y and z and a translation, all exact
/// rationals.  Clip x is `sx * x + tx`, and likewise for y and z.
#[derive(Clone, Copy, PartialEq, Eq, Structural, Debug)]
pub struct VpMatrix {
    pub sx: Rat,
    pub sy: Rat,
    pub sz: Rat,
    pub tx: Rat,
    pub ty: Rat,
    pub tz: Rat,
}

pub open spec fn vp_wf(m: VpMatrix) -> bool {
    &&& rat_wf(m.sx)
    &&& rat_wf(m.sy)
    &&& rat_wf(m.sz)
    &&& rat_wf(m.tx)
    &&& rat_wf(m.ty)
    &&& rat_wf(m.tz)
}

/// The clip-space x coordinate the transform assigns to world x coordinate
/// `x` (a rational pair), as a rational pair.
pub open spec fn clip_x(m: VpMatrix, x: (int, int)) -> (int, int) {
    q_add(q_mul(rat_v(m.sx), x), rat_v(m.tx))
}

pub open spec fn clip_y(m: VpMatrix, y: (int, int)) -> (int, int) {
    q_add(q_mul(rat_v(m.sy), y), rat_v(m.ty))
}

pub open spec fn clip_z(m: VpMatrix, z: (int, int)) -> (int, int) {
    q_add(q_mul(rat_v(m.sz), z), rat_v(m.tz))
}

/// An orthographic camera: viewport size in pixels, zoom and depth planes in
/// thousandths.  The visible world region is `[-aspect*zoom, aspect*zoom]`
/// in x and `[-zoom, zoom]` in y, between depths `near` and `far`.
#[derive(Clone, Copy, PartialEq, Eq, Structural, Debug)]
pub struct CameraOrthographic {
    pub width: u32,
    pub height: u32,
    pub zoom_base: i64,
    pub zoom: i64,
    pub near: i64,
    pub far: i64,
}

/// The exact orthographic projection of camera `c`: what `cgmath`-style
/// `ortho(-a*z, a*z, -z, z, near, far)` denotes, with `a = width/height`
/// and every entry kept as a rational.
pub open spec fn is_ortho_of(m: VpMatrix, c: CameraOrthographic) -> bool {
    &&& m.sx.num == 1000 * c.height && m.sx.den == c.width * c.zoom
    &&& m.sy.num == 1000 && m.sy.den == c.zoom
    &&& m.sz.num == -2000 && m.sz.den == c.far - c.near
    &&& m.tx.num == 0 && m.tx.den == 1
    &&& m.ty.num == 0 && m.ty.den == 1
    &&& m.tz.num == -(c.far + c.near) && m.tz.den == c.far - c.near
}

impl CameraOrthographic {
    pub open spec fn wf(self) -> bool {
        &&& 1 <= self.width
        &&& 1 <= self.height
        &&& 0 <= self.zoom <= MAX_ZOOM_MILLI
        &&& 1 <= self.zoom_base <= MAX_ZOOM_MILLI
        &&& 0 < self.near < self.far <= MAX_DEPTH_MILLI
    }

    /// A camera over a viewport of the given pixel size, at unit zoom and
    /// the default depth range.
    pub fn new(width: u32, height: u32) -> (c: Self)
        requires
            1 <= width,
            1 <= height,
        ensures
            c.wf(),
            c.width == width,
            c.height == height,
            c.zoom == DEFAULT_ZOOM_MILLI,
            c.zoom_base == DEFAULT_ZOOM_MILLI,
            c.near == DEFAULT_NEAR_MILLI,
            c.far == DEFAULT_FAR_MILLI,
    {
        CameraOrthographic {
            width,
            height,
            zoom_base: DEFAULT_ZOOM_MILLI,
            zoom: DEFAULT_ZOOM_MILLI,
            near: DEFAULT_NEAR_MILLI,
            far: DEFAULT_FAR_MILLI,
        }
    }

    pub fn dimensions(&self) -> (r: (u32, u32))
        ensures
            r == (self.width, self.height),
    {
        (self.width, self.height)
    }

    /// Change the zoom by `amount` thousandths.  The result is clamped to
    /// the representable range: never negative (as in the original zoom
    /// rule) and never above `MAX_ZOOM_MILLI`.
    pub fn set_zoom(&mut self, amount: i64)
        requires
            old(self).wf(),
            -MAX_ZOOM_MILLI <= amount <= MAX_ZOOM_MILLI,
        ensures
            final(self).wf(),
            final(self).zoom == ({
                let t = old(self).zoom + amount;
                if t < 0 {
                    0
                } else if t > MAX_ZOOM_MILLI {
                    MAX_ZOOM_MILLI as int
                } else {
                    t
                }
            }),
            *final(self) == (CameraOrthographic { zoom: final(self).zoom, ..*old(self) }),
    {
        let t = self.zoom + amount;
        self.zoom = if t < 0 {
            0
        } else if t > MAX_ZOOM_MILLI {
            MAX_ZOOM_MILLI
        } else {
            t
        };
    }

    /// Return the zoom to its base value.
    pub fn reset_zoom(&mut self)
        requires
            old(self).wf(),
        ensures
            final(self).wf(),
            *final(self) == (CameraOrthographic { zoom: old(self).zoom_base, ..*old(self) }),
    {
        self.zoom = self.zoom_base;
    }

    /// Adopt a new viewport size; the aspect ratio used by the projection
    /// follows from it.
    pub fn resize(&mut self, width: u32, height: u32)
        requires
            old(self).wf(),
            1 <= width,
            1 <= height,
        ensures
            final(self).wf(),
            *final(self) == (CameraOrthographic { width, height, ..*old(self) }),
    {
        self.width = width;
        self.height = height;
    }

    /// The orthographic projection for the current parameters, exact.
    pub fn projection_matrix(&self) -> (m: VpMatrix)
        requires
            self.wf(),
            1 <= self.zoom,
        ensures
            vp_wf(m),
            is_ortho_of(m, *self),
    {
        let w128: i128 = self.width as i128;
        let z128: i128 = self.zoom as i128;
        proof {
            assert(0 < w128 * z128 <= 0x1_0000_0000i128 * 0x3B9A_CA00i128) by (nonlinear_arith)
                requires
                    1 <= w128 <= 0x1_0000_0000i128,
                    1 <= z128 <= 0x3B9A_CA00i128,
            ;
        }
        let sx_den: i128 = w128 * z128;
        VpMatrix {
            sx: Rat { num: 1000 * (self.height as i128), den: sx_den },
            sy: Rat { num: 1000, den: self.zoom as i128 },
            sz: Rat { num: -2000, den: (self.far - self.near) as i128 },
            tx: Rat { num: 0, den: 1 },
            ty: Rat { num: 0, den: 1 },
            tz: Rat { num: -(self.far + self.near) as i128, den: (self.far - self.near) as i128 },
        }
    }
}

/// Projection correctness at the depth planes: the projection maps world
/// depth `-near` to clip z `-1` and world depth `-far` to clip z `1` — the
/// near- and far-plane values of the mathematical convention the projection
/// is stated in.
pub proof fn lemma_ortho_depth_planes(m: VpMatrix, c: CameraOrthographic)
    requires
        c.wf(),
        is_ortho_of(m, c),
    ensures
        q_eq(clip_z(m, (-(c.near as int), 1000)), (-1, 1)),
        q_eq(clip_z(m, (-(c.far as int), 1000)), (1, 1)),
{
    let n = c.near as int;
    let f = c.far as int;
    let zn = clip_z(m, (-n, 1000));
    assert(zn.0 == (-2000) * (-n) * (f - n) + (-(f + n)) * ((f - n) * 1000));
    assert(zn.1 == ((f - n) * 1000) * (f - n));
    assert(zn.0 * 1 == (-1) * zn.1) by (nonlinear_arith)
        requires
            zn.0 == (-2000) * (-n) * (f - n) + (-(f + n)) * ((f - n) * 1000),
            zn.1 == ((f - n) * 1000) * (f - n),
    ;
    let zf = clip_z(m, (-f, 1000));
    assert(zf.0 == (-2000) * (-f) * (f - n) + (-(f + n)) * ((f - n) * 1000));
    assert(zf.1 == ((f - n) * 1000) * (f - n));
    assert(zf.0 * 1 == 1 * zf.1) by (nonlinear_arith)
        requires
            zf.0 == (-2000) * (-f) * (f - n) + (-(f + n)) * ((f - n) * 1000),
            zf.1 == ((f - n) * 1000) * (f - n),
    ;
}

/// Projection symmetry: clip x and clip y are odd functions of the world
/// coordinate, so the projected image is symmetric about the origin.
pub proof fn lemma_ortho_symmetry(m: VpMatrix, c: CameraOrthographic, p: (int, int))
    requires
        c.wf(),
        is_ortho_of(m, c),
        q_wf(p),
    ensures
        q_eq(clip_x(m, q_neg(p)), q_neg(clip_x(m, p))),
        q_eq(clip_y(m, q_neg(p)), q_neg(clip_y(m, p))),
{
    let sxn = rat_v(m.sx).0;
    let sxd = rat_v(m.sx).1;
    let a = clip_x(m, q_neg(p));
    let b = q_neg(clip_x(m, p));
    assert(a.0 == sxn * (-p.0) * 1 + 0 * (sxd * p.1) && a.1 == (sxd * p.1) * 1);
    assert(b.0 == -(sxn * p.0 * 1 + 0 * (sxd * p.1)) && b.1 == (sxd * p.1) * 1);
    assert(a.0 * b.1 == b.0 * a.1) by (nonlinear_arith)
        requires
            a.0 == sxn * (-p.0) * 1 + 0 * (sxd * p.1),
            a.1 == (sxd * p.1) * 1,
            b.0 == -(sxn * p.0 * 1 + 0 * (sxd * p.1)),
            b.1 == (sxd * p.1) * 1,
    ;
    let syn = rat_v(m.sy).0;
    let syd = rat_v(m.sy).1;
    let ay = clip_y(m, q_neg(p));
    let by = q_neg(clip_y(m, p));
    assert(ay.0 == syn * (-p.0) * 1 + 0 * (syd * p.1) && ay.1 == (syd * p.1) * 1);
    assert(by.0 == -(syn * p.0 * 1 + 0 * (syd * p.1)) && by.1 == (syd * p.1) * 1);
    assert(ay.0 * by.1 == by.0 * ay.1) by (nonlinear_arith)
        requires
            ay.0 == syn * (-p.0) * 1 + 0 * (syd * p.1),
            ay.1 == (syd * p.1) * 1,
            by.0 == -(syn * p.0 * 1 + 0 * (syd * p.1)),
            by.1 == (syd * p.1) * 1,
    ;
}

/// Projection aspect scaling: the x scale times the aspect ratio
/// `width/height` equals the y scale, so a square in world space stays a
/// square on a viewport of that aspect ratio.
pub proof fn lemma_ortho_aspect(m: VpMatrix, c: CameraOrthographic)
    requires
        c.wf(),
        1 <= c.zoom,
        is_ortho_of(m, c),
    ensures
        q_eq(q_mul(rat_v(m.sx), (c.width as int, c.height as int)), rat_v(m.sy)),
{
    let w = c.width as int;
    let h = c.height as int;
    let z = c.zoom as int;
    let a = q_mul(rat_v(m.sx), (w, h));
    let b = rat_v(m.sy);
    assert(a.0 == (1000 * h) * w && a.1 == (w * z) * h);
    assert(b.0 == 1000 && b.1 == z);
    assert(a.0 * b.1 == b.0 * a.1) by (nonlinear_arith)
        requires
            a.0 == (1000 * h) * w,
            a.1 == (w * z) * h,
            b.0 == 1000,
            b.1 == z,
    ;
}

} // verus!
