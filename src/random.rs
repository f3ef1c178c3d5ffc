//! Draws from the injected random source. The renderer never reads a global
//! generator: every function that needs chance takes the generator by `&mut`.
use vstd::prelude::*;
use rand::Rng;
use crate::lattice::{
    disc_candidate, disc_candidate_spec, sphere_candidate, sphere_candidate_spec, LatticePoint,
};

verus! {

/// The seedable generator that the renderer threads through every sampler.
#[verifier::external_type_specification]
#[verifier::external_body]
pub struct ExXorShiftRng(rand::XorShiftRng);

/// Relies on `rand::Rng::next_u32` for `XorShiftRng`: the next raw 32-bit draw.
/// Nothing is known of its value.
#[verifier::external_body]
pub(crate) fn draw_u32(rng: &mut rand::XorShiftRng) -> (r: u32) {
    rng.next_u32()
}

/// One round of the unit-sphere sampler on three fresh draws; `None` means
/// the round was rejected and the caller draws again.
pub fn try_unit_sphere(rng: &mut rand::XorShiftRng) -> (r: Option<LatticePoint>)
    ensures
        exists|a: u32, b: u32, c: u32| r == sphere_candidate_spec(a, b, c),
{
    let a = draw_u32(rng);
    let b = draw_u32(rng);
    let c = draw_u32(rng);
    sphere_candidate(a, b, c)
}

/// One round of the unit-disc sampler on two fresh draws; `None` means the
/// round was rejected and the caller draws again.
pub fn try_unit_disc(rng: &mut rand::XorShiftRng) -> (r: Option<LatticePoint>)
    ensures
        exists|a: u32, b: u32| r == disc_candidate_spec(a, b),
{
    let a = draw_u32(rng);
    let b = draw_u32(rng);
    disc_candidate(a, b)
}

} // verus!
