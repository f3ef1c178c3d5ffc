//! The choice a dielectric surface makes between reflecting and refracting.
//! A ray that cannot refract (total internal reflection) is reflected; one
//! that can is reflected with the Fresnel probability `P` and refracted
//! otherwise. A draw `u = m / 2^23` falls below `P` exactly when
//! `m < ceil(P · 2^23)`, the reflection cut the caller passes.
use vstd::prelude::*;
use crate::lattice::{unit_level, unit_level_of, UNIT_SCALE};
use crate::random::draw_u32;

verus! {

/// Whether the surface reflects, for the draw `draw` and the reflection cut.
pub open spec fn reflects_spec(refracts: bool, reflect_cut: u32, draw: u32) -> bool {
    !refracts || unit_level(draw) < reflect_cut
}

/// Decides reflection for one raw draw.
pub fn reflects(refracts: bool, reflect_cut: u32, draw: u32) -> (r: bool)
    ensures
        r == reflects_spec(refracts, reflect_cut, draw),
        !refracts ==> r,
        refracts && reflect_cut == 0 ==> !r,
        reflect_cut >= UNIT_SCALE ==> r,
{
    !refracts || unit_level_of(draw) < reflect_cut
}

/// Draws once from the generator and decides reflection. The draw is taken
/// whether or not the ray can refract, so the generator advances alike.
pub fn choose_reflection(refracts: bool, reflect_cut: u32, rng: &mut rand::XorShiftRng) -> (r: bool)
    ensures
        exists|draw: u32| r == reflects_spec(refracts, reflect_cut, draw),
        !refracts ==> r,
        reflect_cut >= UNIT_SCALE ==> r,
{
    let draw = draw_u32(rng);
    reflects(refracts, reflect_cut, draw)
}

} // verus!
