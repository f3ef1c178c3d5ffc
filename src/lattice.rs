//! The sampling lattice: every uniform draw in `[0, 1)` is `m / 2^23` for a
//! 23-bit integer `m` taken from the low bits of a raw 32-bit draw. Samplers
//! work on that lattice exactly, so their acceptance tests have no rounding.
use vstd::prelude::*;

verus! {

/// Number of values a 23-bit draw can take: the lattice value of `1.0`.
pub const UNIT_SCALE: u32 = 0x80_0000;

/// Mask keeping the 23 low bits of a raw draw.
pub const UNIT_MASK: u32 = 0x7F_FFFF;

/// A point `(x, y, z) / 2^23` of the lattice.
#[derive(Clone, Copy, Debug, PartialEq, Eq)]
pub struct LatticePoint {
    pub x: i32,
    pub y: i32,
    pub z: i32,
}

/// The 23-bit draw that a raw 32-bit draw stands for.
pub open spec fn unit_level(bits: u32) -> int {
    (bits % UNIT_SCALE) as int
}

/// `2u - 1` on the lattice, for the draw `u` that `bits` stands for.
pub open spec fn centered_level(bits: u32) -> int {
    2 * unit_level(bits) - UNIT_SCALE
}

/// Squared length of a lattice point, in units of `2^-46`.
pub open spec fn norm_sq(x: int, y: int, z: int) -> int {
    x * x + y * y + z * z
}

/// The lattice value of `1.0` squared, `2^46`.
pub const UNIT_SQ: i64 = 0x4000_0000_0000;

/// The lattice value of `1.0` squared.
pub open spec fn unit_sq() -> int {
    UNIT_SQ as int
}

/// A lattice point lies strictly inside the unit sphere.
pub open spec fn inside_unit_sphere(p: LatticePoint) -> bool {
    norm_sq(p.x as int, p.y as int, p.z as int) < unit_sq()
}

/// The candidate of the unit-sphere sampler for three raw draws.
pub open spec fn sphere_candidate_spec(a: u32, b: u32, c: u32) -> Option<LatticePoint> {
    let p = LatticePoint {
        x: centered_level(a) as i32,
        y: centered_level(b) as i32,
        z: centered_level(c) as i32,
    };
    if norm_sq(centered_level(a), centered_level(b), centered_level(c)) < unit_sq() {
        Some(p)
    } else {
        None
    }
}

/// The candidate of the unit-disc sampler for two raw draws.
pub open spec fn disc_candidate_spec(a: u32, b: u32) -> Option<LatticePoint> {
    let p = LatticePoint { x: centered_level(a) as i32, y: centered_level(b) as i32, z: 0 };
    if norm_sq(centered_level(a), centered_level(b), 0) < unit_sq() {
        Some(p)
    } else {
        None
    }
}

/// The 23-bit draw in a raw 32-bit draw: the uniform value is `r / 2^23`.
pub fn unit_level_of(bits: u32) -> (r: u32)
    ensures
        r as int == unit_level(bits),
        r < UNIT_SCALE,
{
    assert(bits & 0x7F_FFFF == bits % 0x80_0000) by (bit_vector);
    bits & UNIT_MASK
}

/// `2u - 1` on the lattice: a value in `[-2^23, 2^23)`.
pub fn centered_level_of(bits: u32) -> (r: i32)
    ensures
        r as int == centered_level(bits),
        -(UNIT_SCALE as int) <= r < UNIT_SCALE,
{
    let m = unit_level_of(bits);
    2 * (m as i32) - (UNIT_SCALE as i32)
}

proof fn lemma_square_bound(v: int)
    requires
        -(UNIT_SCALE as int) <= v < UNIT_SCALE,
    ensures
        0 <= v * v <= unit_sq(),
{
    assert(0 <= v * v <= 0x80_0000 * 0x80_0000) by (nonlinear_arith)
        requires
            -0x80_0000 <= v < 0x80_0000,
    ;
}

fn squared_norm(x: i32, y: i32, z: i32) -> (r: i64)
    requires
        -(UNIT_SCALE as int) <= x < UNIT_SCALE,
        -(UNIT_SCALE as int) <= y < UNIT_SCALE,
        -(UNIT_SCALE as int) <= z < UNIT_SCALE,
    ensures
        r as int == norm_sq(x as int, y as int, z as int),
{
    proof {
        lemma_square_bound(x as int);
        lemma_square_bound(y as int);
        lemma_square_bound(z as int);
    }
    let (x, y, z) = (x as i64, y as i64, z as i64);
    x * x + y * y + z * z
}

/// One round of the unit-sphere rejection sampler: the point `2(u, v, w) - 1`
/// for the draws `a`, `b`, `c`, kept only when it lies strictly inside.
pub fn sphere_candidate(a: u32, b: u32, c: u32) -> (r: Option<LatticePoint>)
    ensures
        r == sphere_candidate_spec(a, b, c),
        r matches Some(p) ==> inside_unit_sphere(p),
{
    let x = centered_level_of(a);
    let y = centered_level_of(b);
    let z = centered_level_of(c);
    if squared_norm(x, y, z) < UNIT_SQ {
        Some(LatticePoint { x, y, z })
    } else {
        None
    }
}

/// One round of the unit-disc rejection sampler: the point `2(u, v, 0) - (1, 1, 0)`
/// for the draws `a`, `b`, kept only when it lies strictly inside the unit circle.
pub fn disc_candidate(a: u32, b: u32) -> (r: Option<LatticePoint>)
    ensures
        r == disc_candidate_spec(a, b),
        r matches Some(p) ==> p.z == 0 && inside_unit_sphere(p),
{
    let x = centered_level_of(a);
    let y = centered_level_of(b);
    if squared_norm(x, y, 0) < UNIT_SQ {
        Some(LatticePoint { x, y, z: 0 })
    } else {
        None
    }
}

} // verus!
