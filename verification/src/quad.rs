use vstd::prelude::*;
use crate::render_pass::ColorBits;

verus! {

/// Corner coordinates of the unit quad as raw single-precision bit
/// patterns: 0.5, -0.5 and 0.0.
pub const HALF_BITS: u32 = 0x3F00_0000;

pub const NEG_HALF_BITS: u32 = 0xBF00_0000;

pub const ZERO_BITS: u32 = 0;

/// Default bound on the quads one expanded batch may hold.
pub const DEFAULT_MAX_QUADS: usize = 2000;

/// Largest bound the expansion supports: keeps every index value and every
/// buffer length comfortably in range.
pub const MAX_QUADS_LIMIT: usize = 100_000_000;

/// One vertex of an expanded quad: a 3D position and an RGBA colour, every
/// component a raw 32-bit payload.
#[derive(Clone, Copy, PartialEq, Eq, Structural, Debug)]
pub struct QuadVertex {
    pub pos_x: u32,
    pub pos_y: u32,
    pub pos_z: u32,
    pub color_r: u32,
    pub color_g: u32,
    pub color_b: u32,
    pub color_a: u32,
}

impl QuadVertex {
    pub fn new(pos_x: u32, pos_y: u32, pos_z: u32, color: ColorBits) -> (v: Self)
        ensures
            v == (QuadVertex {
                pos_x,
                pos_y,
                pos_z,
                color_r: color.r,
                color_g: color.g,
                color_b: color.b,
                color_a: color.a,
            }),
    {
        QuadVertex {
            pos_x,
            pos_y,
            pos_z,
            color_r: color.r,
            color_g: color.g,
            color_b: color.b,
            color_a: color.a,
        }
    }
}

/// The failure of an expansion step: the batch already holds its maximum
/// number of quads.
#[derive(Clone, Copy, PartialEq, Eq, Structural, Debug)]
pub enum QuadDataError {
    LimitExceeded,
}

/// The four corners of the unit quad, counter-ordered as the expansion
/// emits them, coloured uniformly.
pub open spec fn quad_corner(j: int, color: ColorBits) -> QuadVertex {
    QuadVertex {
        pos_x: if j == 0 || j == 1 {
            NEG_HALF_BITS
        } else {
            HALF_BITS
        },
        pos_y: if j == 0 || j == 3 {
            HALF_BITS
        } else {
            NEG_HALF_BITS
        },
        pos_z: ZERO_BITS,
        color_r: color.r,
        color_g: color.g,
        color_b: color.b,
        color_a: color.a,
    }
}

/// The index pattern of one quad, two triangles over its four corners.
pub open spec fn quad_index_offset(j: int) -> int {
    if j == 0 {
        0
    } else if j == 1 {
        1
    } else if j == 2 {
        2
    } else if j == 3 {
        2
    } else if j == 4 {
        3
    } else {
        0
    }
}

/// A batch in expanded form: each quad contributes four coloured corner
/// vertices and six indices, ready for one indexed draw call.
pub struct QuadData {
    pub max_quads: usize,
    pub count: usize,
    pub vertices: Vec<QuadVertex>,
    pub indices: Vec<u32>,
}

impl QuadData {
    pub open spec fn wf(self) -> bool {
        &&& 1 <= self.max_quads <= MAX_QUADS_LIMIT
        &&& self.count <= self.max_quads
        &&& self.vertices@.len() == 4 * self.count
        &&& self.indices@.len() == 6 * self.count
    }

    pub fn new() -> (d: Self)
        ensures
            d.wf(),
            d.max_quads == DEFAULT_MAX_QUADS,
            d.count == 0,
            d.vertices@.len() == 0,
            d.indices@.len() == 0,
    {
        Self::default()
    }

    /// Expand one quad of the given colour into the batch.  Fails — and
    /// changes nothing — exactly when the batch already holds `max_quads`
    /// quads; otherwise it appends the six indices of the next quad, offset
    /// past the vertices so far, and its four coloured corners.
    pub fn add(&mut self, color: ColorBits) -> (r: Result<(), QuadDataError>)
        requires
            old(self).wf(),
        ensures
            final(self).wf(),
            old(self).count >= old(self).max_quads ==> r == Result::<(), QuadDataError>::Err(
                QuadDataError::LimitExceeded,
            ) && *final(self) == *old(self),
            old(self).count < old(self).max_quads ==> {
                &&& r is Ok
                &&& final(self).max_quads == old(self).max_quads
                &&& final(self).count == old(self).count + 1
                &&& final(self).indices@ == old(self).indices@ + Seq::new(
                    6,
                    |j: int| (4 * old(self).count + quad_index_offset(j)) as u32,
                )
                &&& final(self).vertices@ == old(self).vertices@ + Seq::new(
                    4,
                    |j: int| quad_corner(j, color),
                )
            },
    {
        if self.count >= self.max_quads {
            return Err(QuadDataError::LimitExceeded);
        }
        let offset: u32 = self.vertices.len() as u32;
        self.indices.push(offset);
        self.indices.push(offset + 1);
        self.indices.push(offset + 2);
        self.indices.push(offset + 2);
        self.indices.push(offset + 3);
        self.indices.push(offset);
        self.vertices.push(QuadVertex::new(NEG_HALF_BITS, HALF_BITS, ZERO_BITS, color));
        self.vertices.push(QuadVertex::new(NEG_HALF_BITS, NEG_HALF_BITS, ZERO_BITS, color));
        self.vertices.push(QuadVertex::new(HALF_BITS, NEG_HALF_BITS, ZERO_BITS, color));
        self.vertices.push(QuadVertex::new(HALF_BITS, HALF_BITS, ZERO_BITS, color));
        self.count = self.count + 1;
        proof {
            assert(final(self).indices@ =~= old(self).indices@ + Seq::new(
                6,
                |j: int| (4 * old(self).count + quad_index_offset(j)) as u32,
            ));
            assert(final(self).vertices@ =~= old(self).vertices@ + Seq::new(
                4,
                |j: int| quad_corner(j, color),
            ));
        }
        Ok(())
    }
}

impl Default for QuadData {
    fn default() -> (d: Self)
        ensures
            d.wf(),
            d.max_quads == DEFAULT_MAX_QUADS,
            d.count == 0,
            d.vertices@.len() == 0,
            d.indices@.len() == 0,
    {
        QuadData { max_quads: DEFAULT_MAX_QUADS, count: 0, vertices: Vec::new(), indices: Vec::new() }
    }
}

} // verus!
