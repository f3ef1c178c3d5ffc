use rand::{Rng, SeedableRng, XorShiftRng};
use raytracer::lattice::UNIT_SCALE;
use raytracer::scatter::{choose_reflection, reflects};

#[test]
fn total_internal_reflection_always_reflects() {
    for draw in [0u32, 1, 0x40_0000, 0x7F_FFFF, u32::MAX] {
        assert!(reflects(false, 0, draw));
    }
}

#[test]
fn draw_below_cut_reflects() {
    assert!(reflects(true, 100, 99));
    assert!(!reflects(true, 100, 100));
    assert!(!reflects(true, 0, 0));
    assert!(reflects(true, UNIT_SCALE, 0x7F_FFFF));
    // Only the low 23 bits of a raw draw count.
    assert!(reflects(true, 100, 0x8000_0000 | 99));
}

#[test]
fn cut_of_a_probability_matches_the_unit_draw() {
    let p = 0.04f32;
    let cut = (p * UNIT_SCALE as f32).ceil() as u32;
    for m in [cut - 2, cut - 1, cut, cut + 1] {
        let u = m as f32 / UNIT_SCALE as f32;
        assert_eq!(reflects(true, cut, m), u < p);
    }
}

#[test]
fn choice_takes_one_draw() {
    let mut rng = XorShiftRng::from_seed([3, 5, 7, 9]);
    let mut copy = XorShiftRng::from_seed([3, 5, 7, 9]);
    for _ in 0..50 {
        let got = choose_reflection(true, 0x20_0000, &mut rng);
        assert_eq!(got, reflects(true, 0x20_0000, copy.next_u32()));
    }
    assert!(choose_reflection(false, 0, &mut rng));
    copy.next_u32();
    assert_eq!(rng.next_u32(), copy.next_u32());
}
