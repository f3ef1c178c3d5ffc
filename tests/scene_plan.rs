use rand::{Rng, SeedableRng, XorShiftRng};
use raytracer::scene::{
    cell_plan, is_metal_choice, plan_cell, plan_grid, CellMaterial, CellPlan, GRID_CELLS,
};

fn seeded() -> XorShiftRng {
    XorShiftRng::from_seed([0x193a_6754, 0xa8a7_d469, 0x9783_0e05, 0x113b_a7bb])
}

#[test]
fn metal_cut_matches_three_tenths() {
    assert!(is_metal_choice(0));
    assert!(is_metal_choice(2_516_582));
    assert!(!is_metal_choice(2_516_583));
    assert!(!is_metal_choice(0x7F_FFFF));
    assert!(is_metal_choice(0xFF80_0000 | 2_516_582));
    // Same cut as comparing the unit float with 0.3.
    for m in [2_516_580u32, 2_516_581, 2_516_582, 2_516_583, 2_516_584] {
        let u = m as f32 / 8_388_608.0;
        assert_eq!(is_metal_choice(m), u < 0.3f32);
    }
}

#[test]
fn grid_covers_cells_in_order() {
    let cells = plan_grid(&mut seeded());
    assert_eq!(cells.len(), GRID_CELLS);
    assert_eq!((cells[0].a, cells[0].b), (-4, -4));
    assert_eq!((cells[1].a, cells[1].b), (-4, -3));
    assert_eq!((cells[8].a, cells[8].b), (-3, -4));
    assert_eq!((cells[63].a, cells[63].b), (3, 3));
}

#[test]
fn grid_material_follows_choice() {
    let cells = plan_grid(&mut seeded());
    let mut metals = 0;
    for c in &cells {
        let metal = matches!(c.material, CellMaterial::Metal { .. });
        assert_eq!(metal, is_metal_choice(c.choice));
        if metal {
            metals += 1;
        }
    }
    assert!(metals > 0 && metals < GRID_CELLS);
}

#[test]
fn same_seed_same_grid() {
    assert_eq!(plan_grid(&mut seeded()), plan_grid(&mut seeded()));
}

#[test]
fn cell_takes_draws_in_order() {
    let mut rng = seeded();
    let mut copy = seeded();
    for _ in 0..20 {
        let cell = plan_cell(1, -2, &mut rng);
        let d: Vec<u32> = (0..9).map(|_| copy.next_u32()).collect();
        assert_eq!((cell.a, cell.b), (1, -2));
        assert_eq!((cell.jitter_x, cell.jitter_z, cell.choice), (d[0], d[1], d[2]));
        match cell.material {
            CellMaterial::Lambertian { albedo } => assert_eq!(albedo.to_vec(), d[3..9].to_vec()),
            CellMaterial::Metal { albedo } => {
                let m: Vec<u32> = (0..6).map(|_| copy.next_u32()).collect();
                assert_eq!(albedo.to_vec(), m);
            }
        }
    }
    assert_eq!(rng.next_u32(), copy.next_u32());
}

#[test]
fn cell_plan_diffuse_uses_draws_three_to_eight() {
    let draws: Vec<u32> = vec![11, 12, 3_000_000, 21, 22, 23, 24, 25, 26];
    assert_eq!(
        cell_plan(2, -1, &draws),
        CellPlan {
            a: 2,
            b: -1,
            jitter_x: 11,
            jitter_z: 12,
            choice: 3_000_000,
            material: CellMaterial::Lambertian { albedo: [21, 22, 23, 24, 25, 26] },
        }
    );
}

#[test]
fn cell_plan_metal_uses_the_last_six_draws() {
    let draws: Vec<u32> = vec![11, 12, 5, 21, 22, 23, 24, 25, 26, 31, 32, 33, 34, 35, 36];
    assert_eq!(
        cell_plan(-4, 3, &draws),
        CellPlan {
            a: -4,
            b: 3,
            jitter_x: 11,
            jitter_z: 12,
            choice: 5,
            material: CellMaterial::Metal { albedo: [31, 32, 33, 34, 35, 36] },
        }
    );
}

#[test]
fn same_seed_same_cell_and_same_state() {
    let mut r1 = seeded();
    let mut r2 = seeded();
    for k in 0..10 {
        assert_eq!(plan_cell(k, -k, &mut r1), plan_cell(k, -k, &mut r2));
    }
    assert_eq!(r1.next_u32(), r2.next_u32());
}
