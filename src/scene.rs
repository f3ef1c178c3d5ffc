//! The layout of the default procedural scene: a grid of small spheres, one
//! per cell `(a, b)` with `-GRID_HALF <= a, b < GRID_HALF`, visited with `a`
//! in the outer loop. For each cell the plan keeps the raw draws that place the
//! sphere and colour it, in the order they are taken from the generator.
use vstd::prelude::*;
use crate::lattice::{unit_level, unit_level_of};
use crate::random::draw_u32;

verus! {

/// The grid spans the cells `-GRID_HALF .. GRID_HALF` on both axes.
pub const GRID_HALF: i32 = 4;

/// Number of cells in one row of the grid.
pub const GRID_SIDE: usize = 8;

/// Number of cells of the grid, one small sphere each.
pub const GRID_CELLS: usize = 64;

/// A draw picks metal when its 23-bit level is below this cut: `0.3` of the
/// unit on the lattice, rounded as a single-precision comparison with `0.3`
/// rounds it.
pub const METAL_CUT: u32 = 2_516_583;

/// The material of a small sphere, with the raw draws of its albedo: the
/// albedo's channels are the products `u0*u1`, `u2*u3` and `u4*u5`.
#[derive(Clone, Copy, Debug, PartialEq, Eq)]
pub enum CellMaterial {
    Lambertian { albedo: [u32; 6] },
    Metal { albedo: [u32; 6] },
}

/// The plan of one cell's sphere. Its centre is `(a + 0.9 u, 0.2, b + 0.9 v)`
/// for the draws `u = jitter_x`, `v = jitter_z`.
#[derive(Clone, Copy, Debug, PartialEq, Eq)]
pub struct CellPlan {
    pub a: i32,
    pub b: i32,
    pub jitter_x: u32,
    pub jitter_z: u32,
    pub choice: u32,
    pub material: CellMaterial,
}

/// A choice draw in `[0, 1)` below `0.3`: about 30% of spheres are metal.
pub open spec fn picks_metal(choice: u32) -> bool {
    unit_level(choice) < METAL_CUT
}

/// Grid coordinate of the `k`-th cell along the outer axis.
pub open spec fn cell_a(k: int) -> int {
    k / GRID_SIDE as int - GRID_HALF
}

/// Grid coordinate of the `k`-th cell along the inner axis.
pub open spec fn cell_b(k: int) -> int {
    k % GRID_SIDE as int - GRID_HALF
}

/// A cell's plan is well formed: its material follows its choice draw.
pub open spec fn cell_ok(c: CellPlan) -> bool {
    (c.material is Metal) == picks_metal(c.choice)
}

/// A cell's draws are complete: the two centre offsets, the choice, six
/// diffuse albedo draws, and six metal ones exactly when the choice picks metal.
pub open spec fn draws_complete(draws: Seq<u32>) -> bool {
    &&& draws.len() >= 3
    &&& draws.len() == if picks_metal(draws[2]) { 15int } else { 9int }
}

/// `c` is the plan of cell `(a, b)` for the complete draws `draws`: the first
/// two place the sphere, the third chooses its material, and the albedo draws
/// are the six after it for a diffuse sphere, the six after those for metal.
pub open spec fn cell_matches(c: CellPlan, a: i32, b: i32, draws: Seq<u32>) -> bool {
    &&& c.a == a
    &&& c.b == b
    &&& c.jitter_x == draws[0]
    &&& c.jitter_z == draws[1]
    &&& c.choice == draws[2]
    &&& match c.material {
        CellMaterial::Lambertian { albedo } => !picks_metal(draws[2]) && albedo@
            == draws.subrange(3, 9),
        CellMaterial::Metal { albedo } => picks_metal(draws[2]) && albedo@ == draws.subrange(
            9,
            15,
        ),
    }
}

/// Whether a choice draw picks metal.
pub fn is_metal_choice(choice: u32) -> (r: bool)
    ensures
        r == picks_metal(choice),
{
    unit_level_of(choice) < METAL_CUT
}

fn albedo_at(draws: &Vec<u32>, start: usize) -> (r: [u32; 6])
    requires
        start + 6 <= draws.len(),
    ensures
        r@ == draws@.subrange(start as int, start + 6),
{
    let r = [
        draws[start],
        draws[start + 1],
        draws[start + 2],
        draws[start + 3],
        draws[start + 4],
        draws[start + 5],
    ];
    assert(r@ =~= draws@.subrange(start as int, start + 6));
    r
}

/// The plan of cell `(a, b)` for its complete draws, in the order they were taken.
pub fn cell_plan(a: i32, b: i32, draws: &Vec<u32>) -> (r: CellPlan)
    requires
        draws_complete(draws@),
    ensures
        cell_matches(r, a, b, draws@),
        cell_ok(r),
{
    let choice = draws[2];
    let material = if is_metal_choice(choice) {
        CellMaterial::Metal { albedo: albedo_at(draws, 9) }
    } else {
        CellMaterial::Lambertian { albedo: albedo_at(draws, 3) }
    };
    CellPlan { a, b, jitter_x: draws[0], jitter_z: draws[1], choice, material }
}

fn push_draws(draws: &mut Vec<u32>, count: usize, rng: &mut rand::XorShiftRng)
    ensures
        final(draws)@.len() == old(draws)@.len() + count,
        final(draws)@.subrange(0, old(draws)@.len() as int) == old(draws)@,
{
    let ghost start = draws@;
    let mut k: usize = 0;
    while k < count
        invariant
            k <= count,
            draws@.len() == start.len() + k,
            draws@.subrange(0, start.len() as int) == start,
        decreases count - k,
    {
        let d = draw_u32(rng);
        draws.push(d);
        k += 1;
        assert(draws@.subrange(0, start.len() as int) =~= start);
    }
}

/// The draws of one cell, taken from the generator in order: nine, and six
/// more when the choice picks metal.
fn draw_cell(rng: &mut rand::XorShiftRng) -> (r: Vec<u32>)
    ensures
        draws_complete(r@),
{
    let mut draws: Vec<u32> = Vec::new();
    push_draws(&mut draws, 9, rng);
    if is_metal_choice(draws[2]) {
        push_draws(&mut draws, 6, rng);
        assert(draws@[2] == draws@.subrange(0, 9)[2]);
    }
    draws
}

/// Plans the sphere of cell `(a, b)`. The draws are taken in this order: the
/// two centre offsets, the material choice, six albedo draws for a diffuse
/// sphere, and for a metal one six more that replace them.
pub fn plan_cell(a: i32, b: i32, rng: &mut rand::XorShiftRng) -> (r: CellPlan)
    ensures
        exists|draws: Seq<u32>| draws_complete(draws) && cell_matches(r, a, b, draws),
        r.a == a,
        r.b == b,
        cell_ok(r),
{
    let draws = draw_cell(rng);
    cell_plan(a, b, &draws)
}

/// A cell's plan is a function of its draws: the same draws give the same
/// plan, so a generator in the same state yields the same sphere.
pub proof fn lemma_plan_determined(c1: CellPlan, c2: CellPlan, a: i32, b: i32, draws: Seq<u32>)
    requires
        cell_matches(c1, a, b, draws),
        cell_matches(c2, a, b, draws),
    ensures
        c1 == c2,
{
    broadcast use vstd::array::group_array_axioms;
    match (c1.material, c2.material) {
        (CellMaterial::Lambertian { albedo: x }, CellMaterial::Lambertian { albedo: y }) => {
            assert forall|i: int| 0 <= i < 6 implies x[i] == #[trigger] y[i] by {
                assert(x@[i] == y@[i]);
            }
            assert(x =~= y);
        },
        (CellMaterial::Metal { albedo: x }, CellMaterial::Metal { albedo: y }) => {
            assert forall|i: int| 0 <= i < 6 implies x[i] == #[trigger] y[i] by {
                assert(x@[i] == y@[i]);
            }
            assert(x =~= y);
        },
        _ => {},
    }
}

/// Plans the whole grid, cell by cell with `a` in the outer loop.
pub fn plan_grid(rng: &mut rand::XorShiftRng) -> (r: Vec<CellPlan>)
    ensures
        r.len() == GRID_CELLS,
        forall|k: int|
            0 <= k < GRID_CELLS ==> {
                &&& (#[trigger] r@[k]).a == cell_a(k)
                &&& r@[k].b == cell_b(k)
                &&& cell_ok(r@[k])
            },
{
    let mut cells: Vec<CellPlan> = Vec::with_capacity(GRID_CELLS);
    let mut a: i32 = -GRID_HALF;
    while a < GRID_HALF
        invariant
            -GRID_HALF <= a <= GRID_HALF,
            cells.len() == (a + GRID_HALF) * GRID_SIDE,
            forall|k: int|
                0 <= k < cells.len() ==> {
                    &&& (#[trigger] cells@[k]).a == cell_a(k)
                    &&& cells@[k].b == cell_b(k)
                    &&& cell_ok(cells@[k])
                },
        decreases GRID_HALF - a,
    {
        let mut b: i32 = -GRID_HALF;
        while b < GRID_HALF
            invariant
                -GRID_HALF <= a < GRID_HALF,
                -GRID_HALF <= b <= GRID_HALF,
                cells.len() == (a + GRID_HALF) * GRID_SIDE + (b + GRID_HALF),
                forall|k: int|
                    0 <= k < cells.len() ==> {
                        &&& (#[trigger] cells@[k]).a == cell_a(k)
                        &&& cells@[k].b == cell_b(k)
                        &&& cell_ok(cells@[k])
                    },
            decreases GRID_HALF - b,
        {
            let cell = plan_cell(a, b, rng);
            let ghost k = cells.len() as int;
            cells.push(cell);
            proof {
                assert(k / 8 == a + 4 && k % 8 == b + 4) by (nonlinear_arith)
                    requires
                        k == (a + 4) * 8 + (b + 4),
                        0 <= b + 4 < 8,
                ;
            }
            b += 1;
        }
        a += 1;
    }
    cells
}

} // verus!
