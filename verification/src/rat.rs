use vstd::prelude::*;

verus! {

/// An exact rational number, `num / den` with a positive denominator.
///
/// Projection entries are kept as rationals so that every contract about the
/// camera can be exact; the conversion to the device's floating-point format
/// happens outside the library, at upload time.
#[derive(Clone, Copy, PartialEq, Eq, Structural, Debug)]
pub struct Rat {
    pub num: i128,
    pub den: i128,
}

pub open spec fn rat_wf(r: Rat) -> bool {
    0 < r.den
}

/// A rational as a pair of unbounded integers, for specification arithmetic.
pub open spec fn rat_v(r: Rat) -> (int, int) {
    (r.num as int, r.den as int)
}

pub open spec fn q_wf(a: (int, int)) -> bool {
    a.1 != 0
}

/// Equality of rational pairs by cross-multiplication.
pub open spec fn q_eq(a: (int, int), b: (int, int)) -> bool {
    a.0 * b.1 == b.0 * a.1
}

pub open spec fn q_mul(a: (int, int), b: (int, int)) -> (int, int) {
    (a.0 * b.0, a.1 * b.1)
}

pub open spec fn q_add(a: (int, int), b: (int, int)) -> (int, int) {
    (a.0 * b.1 + b.0 * a.1, a.1 * b.1)
}

pub open spec fn q_neg(a: (int, int)) -> (int, int) {
    (-a.0, a.1)
}

pub open spec fn q_int(n: int) -> (int, int) {
    (n, 1)
}

} // verus!
