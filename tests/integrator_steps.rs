use raytracer::integrator::{after_scatter, after_trace, PathStep, MAX_DEPTH};

#[test]
fn miss_goes_to_sky() {
    assert_eq!(after_trace(0, false), PathStep::Sky);
    assert_eq!(after_trace(MAX_DEPTH, false), PathStep::Sky);
}

#[test]
fn hit_is_scattered_below_the_cap() {
    assert_eq!(after_trace(0, true), PathStep::Scatter);
    assert_eq!(after_trace(MAX_DEPTH - 1, true), PathStep::Scatter);
}

#[test]
fn past_the_cap_is_black_hit_or_miss() {
    assert_eq!(after_trace(MAX_DEPTH + 1, false), PathStep::Black);
    assert_eq!(after_trace(MAX_DEPTH + 1, true), PathStep::Black);
    assert_eq!(after_trace(u32::MAX, false), PathStep::Black);
}

#[test]
fn hit_at_the_cap_is_black() {
    assert_eq!(after_trace(MAX_DEPTH, true), PathStep::Black);
}

#[test]
fn scatter_goes_one_deeper() {
    assert_eq!(after_scatter(0, true), PathStep::Trace { depth: 1 });
    assert_eq!(after_scatter(MAX_DEPTH - 1, true), PathStep::Trace { depth: MAX_DEPTH });
}

#[test]
fn absorbed_is_black() {
    assert_eq!(after_scatter(3, false), PathStep::Black);
}

#[test]
fn facing_mirrors_end_black_after_the_cap() {
    let mut depth = 0;
    let mut bounces = 0;
    let end = loop {
        match after_trace(depth, true) {
            PathStep::Scatter => match after_scatter(depth, true) {
                PathStep::Trace { depth: d } => {
                    depth = d;
                    bounces += 1;
                }
                other => break other,
            },
            other => break other,
        }
    };
    assert_eq!(end, PathStep::Black);
    assert_eq!(bounces, 50);
}
