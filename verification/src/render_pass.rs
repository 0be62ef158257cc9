use vstd::prelude::*;
use crate::batch::CommittedBufferSet;
use crate::camera::{clip_y, clip_z, vp_wf, VpMatrix};
use crate::rat::{q_eq, q_neg, q_wf, rat_v, Rat};

verus! {

/// Indices of the shared unit quad: two triangles, six indices.
pub const QUAD_INDEX_COUNT: u32 = 6;

/// An RGBA colour as four raw 32-bit channel payloads, stored exactly as the
/// caller supplied them.
#[derive(Clone, Copy, PartialEq, Eq, Structural, Debug)]
pub struct ColorBits {
    pub r: u32,
    pub g: u32,
    pub b: u32,
    pub a: u32,
}

/// One recorded draw call: a single indexed, instanced draw of the shared
/// unit quad against a committed buffer set.
#[derive(Clone, Copy, PartialEq, Eq, Structural, Debug)]
pub struct DrawCall {
    pub index_count: u32,
    pub instance_count: u32,
}

/// The frame's recorded commands: clear the target, bind the pipeline and
/// the view-projection transform once, then one draw call per committed
/// buffer set, in commit order.
#[derive(Debug)]
pub struct CommandList {
    pub clear_color: ColorBits,
    pub mvp: VpMatrix,
    pub draws: Vec<DrawCall>,
}

/// The presentation backend uses a Y-down clip space with depth in [0, 1],
/// while the projection is stated Y-up with depth in [-1, 1].  This relation
/// captures the fixed correction transform, pre-multiplied once per frame:
/// x is kept, y is flipped, and z becomes (z + 1) / 2.
pub open spec fn is_vulkan_corrected(r: VpMatrix, m: VpMatrix) -> bool {
    &&& r.sx == m.sx
    &&& r.tx == m.tx
    &&& r.sy.num == -m.sy.num && r.sy.den == m.sy.den
    &&& r.ty.num == -m.ty.num && r.ty.den == m.ty.den
    &&& r.sz.num == m.sz.num && r.sz.den == 2 * m.sz.den
    &&& r.tz.num == m.tz.num + m.tz.den && r.tz.den == 2 * m.tz.den
}

/// Entry magnitudes under which the correction's doublings and negations
/// stay in range; every transform the camera produces is far inside it.
pub open spec fn correction_in_range(m: VpMatrix) -> bool {
    &&& -0x1000_0000_0000_0000_0000_0000_0000i128 <= m.sy.num
        <= 0x1000_0000_0000_0000_0000_0000_0000i128
    &&& -0x1000_0000_0000_0000_0000_0000_0000i128 <= m.ty.num
        <= 0x1000_0000_0000_0000_0000_0000_0000i128
    &&& -0x1000_0000_0000_0000_0000_0000_0000i128 <= m.tz.num
        <= 0x1000_0000_0000_0000_0000_0000_0000i128
    &&& m.sz.den <= 0x1000_0000_0000_0000_0000_0000_0000i128
    &&& m.tz.den <= 0x1000_0000_0000_0000_0000_0000_0000i128
}

/// Pre-multiply the fixed device-convention correction onto a
/// view-projection transform.
pub fn apply_vulkan_correction(m: VpMatrix) -> (r: VpMatrix)
    requires
        vp_wf(m),
        correction_in_range(m),
    ensures
        vp_wf(r),
        is_vulkan_corrected(r, m),
{
    VpMatrix {
        sx: m.sx,
        tx: m.tx,
        sy: Rat { num: -m.sy.num, den: m.sy.den },
        ty: Rat { num: -m.ty.num, den: m.ty.den },
        sz: Rat { num: m.sz.num, den: 2 * m.sz.den },
        tz: Rat { num: m.tz.num + m.tz.den, den: 2 * m.tz.den },
    }
}

/// The correction maps the projection's depth range onto the device's: a
/// point at clip depth -1 (the near plane) lands at corrected depth 0, and a
/// point at clip depth 1 (the far plane) stays at 1.
pub proof fn lemma_correction_depth_range(m: VpMatrix, r: VpMatrix, z: (int, int))
    requires
        vp_wf(m),
        q_wf(z),
        is_vulkan_corrected(r, m),
    ensures
        q_eq(clip_z(m, z), (-1, 1)) ==> q_eq(clip_z(r, z), (0, 1)),
        q_eq(clip_z(m, z), (1, 1)) ==> q_eq(clip_z(r, z), (1, 1)),
{
    let szn = rat_v(m.sz).0;
    let szd = rat_v(m.sz).1;
    let tzn = rat_v(m.tz).0;
    let tzd = rat_v(m.tz).1;
    let a = clip_z(m, z);
    let b = clip_z(r, z);
    assert(a.0 == szn * z.0 * tzd + tzn * (szd * z.1) && a.1 == (szd * z.1) * tzd);
    assert(b.0 == szn * z.0 * (2 * tzd) + (tzn + tzd) * ((2 * szd) * z.1) && b.1 == ((2 * szd)
        * z.1) * (2 * tzd));
    if q_eq(a, (-1, 1)) {
        assert(b.0 * 1 == 0 * b.1) by (nonlinear_arith)
            requires
                a.0 * 1 == (-1) * a.1,
                a.0 == szn * z.0 * tzd + tzn * (szd * z.1),
                a.1 == (szd * z.1) * tzd,
                b.0 == szn * z.0 * (2 * tzd) + (tzn + tzd) * ((2 * szd) * z.1),
                b.1 == ((2 * szd) * z.1) * (2 * tzd),
        ;
    }
    if q_eq(a, (1, 1)) {
        assert(b.0 * 1 == 1 * b.1) by (nonlinear_arith)
            requires
                a.0 * 1 == 1 * a.1,
                a.0 == szn * z.0 * tzd + tzn * (szd * z.1),
                a.1 == (szd * z.1) * tzd,
                b.0 == szn * z.0 * (2 * tzd) + (tzn + tzd) * ((2 * szd) * z.1),
                b.1 == ((2 * szd) * z.1) * (2 * tzd),
        ;
    }
}

/// The correction flips y: the corrected clip y of any point is the
/// negation of the uncorrected one.
pub proof fn lemma_correction_flips_y(m: VpMatrix, r: VpMatrix, p: (int, int))
    requires
        vp_wf(m),
        q_wf(p),
        is_vulkan_corrected(r, m),
    ensures
        q_eq(clip_y(r, p), q_neg(clip_y(m, p))),
{
    let syn = rat_v(m.sy).0;
    let syd = rat_v(m.sy).1;
    let tyn = rat_v(m.ty).0;
    let tyd = rat_v(m.ty).1;
    let a = clip_y(r, p);
    let b = q_neg(clip_y(m, p));
    assert(a.0 == (-syn) * p.0 * tyd + (-tyn) * (syd * p.1) && a.1 == (syd * p.1) * tyd);
    assert(b.0 == -(syn * p.0 * tyd + tyn * (syd * p.1)) && b.1 == (syd * p.1) * tyd);
    assert(a.0 * b.1 == b.0 * a.1) by (nonlinear_arith)
        requires
            a.0 == (-syn) * p.0 * tyd + (-tyn) * (syd * p.1),
            a.1 == (syd * p.1) * tyd,
            b.0 == -(syn * p.0 * tyd + tyn * (syd * p.1)),
            b.1 == (syd * p.1) * tyd,
    ;
}

/// Record one frame: clear to the background colour, carry the corrected
/// view-projection transform, and issue exactly one draw call per committed
/// buffer set — zero draws when nothing was committed this frame.
pub fn record(clear_color: ColorBits, mvp: VpMatrix, batches: &Vec<CommittedBufferSet>) -> (cl:
    CommandList)
    requires
        forall|i: int| 0 <= i < batches@.len() ==> (#[trigger] batches@[i].instances@.len())
            <= u32::MAX,
    ensures
        cl.clear_color == clear_color,
        cl.mvp == mvp,
        cl.draws@.len() == batches@.len(),
        forall|i: int| 0 <= i < batches@.len() ==> (#[trigger] cl.draws@[i]) == (DrawCall {
            index_count: QUAD_INDEX_COUNT,
            instance_count: batches@[i].instances@.len() as u32,
        }),
{
    let mut draws: Vec<DrawCall> = Vec::new();
    let mut k: usize = 0;
    while k < batches.len()
        invariant
            k <= batches@.len(),
            draws@.len() == k,
            forall|i: int| 0 <= i < batches@.len() ==> (#[trigger] batches@[i].instances@.len())
                <= u32::MAX,
            forall|i: int| 0 <= i < k ==> (#[trigger] draws@[i]) == (DrawCall {
                index_count: QUAD_INDEX_COUNT,
                instance_count: batches@[i].instances@.len() as u32,
            }),
        decreases batches@.len() - k,
    {
        let n = batches[k].instances.len();
        draws.push(DrawCall { index_count: QUAD_INDEX_COUNT, instance_count: n as u32 });
        k += 1;
    }
    CommandList { clear_color, mvp, draws }
}

} // verus!
