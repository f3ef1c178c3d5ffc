//! The decisions of the path integrator. A camera path alternates between
//! tracing a ray into the scene and asking the hit material to scatter; the
//! radiance arithmetic happens around these steps, which only say what comes
//! next. A path that keeps scattering is cut off after `MAX_DEPTH` bounces.
use vstd::prelude::*;

verus! {

/// Largest number of scattered rays a camera path may trace.
pub const MAX_DEPTH: u32 = 50;

/// What the integrator does next on a path.
#[derive(Clone, Copy, Debug, PartialEq, Eq)]
pub enum PathStep {
    /// The ray left the scene: the path ends lit by the sky gradient.
    Sky,
    /// The ray hit a surface: ask its material to scatter.
    Scatter,
    /// The path ends black: the ray was absorbed or the path ran out of bounces.
    Black,
    /// Trace the scattered ray, which is the `depth`-th bounce of the path.
    Trace { depth: u32 },
}

/// The step after tracing a ray at `depth`, given whether it hit anything.
/// A path past the cap is black whatever the ray does; at the cap a miss is
/// still lit by the sky.
pub open spec fn trace_step(depth: u32, hit: bool) -> PathStep {
    if depth > MAX_DEPTH {
        PathStep::Black
    } else if !hit {
        PathStep::Sky
    } else if depth == MAX_DEPTH {
        PathStep::Black
    } else {
        PathStep::Scatter
    }
}

/// The step after the material at `depth` was asked to scatter.
pub open spec fn scatter_step(depth: u32, scattered: bool) -> PathStep {
    if scattered {
        PathStep::Trace { depth: (depth + 1) as u32 }
    } else {
        PathStep::Black
    }
}

/// Decides what follows a ray traced at `depth`. Past the cap the path ends
/// black; otherwise a miss ends it in the sky, and a hit is scattered unless
/// the path is out of bounces, which ends it black.
pub fn after_trace(depth: u32, hit: bool) -> (r: PathStep)
    ensures
        r == trace_step(depth, hit),
        depth > MAX_DEPTH ==> r == PathStep::Black,
{
    if depth > MAX_DEPTH {
        PathStep::Black
    } else if !hit {
        PathStep::Sky
    } else if depth == MAX_DEPTH {
        PathStep::Black
    } else {
        PathStep::Scatter
    }
}

/// Decides what follows a scatter request at `depth`: the scattered ray is
/// traced one bounce deeper, an absorbed one ends the path black.
pub fn after_scatter(depth: u32, scattered: bool) -> (r: PathStep)
    requires
        depth < MAX_DEPTH,
    ensures
        r == scatter_step(depth, scattered),
{
    if scattered {
        PathStep::Trace { depth: depth + 1 }
    } else {
        PathStep::Black
    }
}

/// How a path that starts at `depth` ends, and how many scattered rays it
/// traces, when the ray at bounce `d` hits iff `hit(d)` and its material
/// scatters iff `scattered(d)`.
pub open spec fn path_end(
    depth: u32,
    hit: spec_fn(u32) -> bool,
    scattered: spec_fn(u32) -> bool,
) -> (PathStep, nat)
    decreases MAX_DEPTH - depth,
{
    match trace_step(depth, hit(depth)) {
        PathStep::Scatter => match scatter_step(depth, scattered(depth)) {
            PathStep::Trace { depth: next } => if depth < next <= MAX_DEPTH {
                let end = path_end(next, hit, scattered);
                (end.0, end.1 + 1)
            } else {
                (PathStep::Black, 0)
            },
            other => (other, 0),
        },
        other => (other, 0),
    }
}

/// Every path ends, in the sky or black, after at most `MAX_DEPTH - depth`
/// scattered rays, whatever the scene hits and the materials do.
pub proof fn lemma_path_bounded(
    depth: u32,
    hit: spec_fn(u32) -> bool,
    scattered: spec_fn(u32) -> bool,
)
    requires
        depth <= MAX_DEPTH,
    ensures
        path_end(depth, hit, scattered).0 == PathStep::Sky
            || path_end(depth, hit, scattered).0 == PathStep::Black,
        path_end(depth, hit, scattered).1 <= MAX_DEPTH - depth,
    decreases MAX_DEPTH - depth,
{
    if hit(depth) && depth < MAX_DEPTH && scattered(depth) {
        lemma_path_bounded((depth + 1) as u32, hit, scattered);
    }
}

/// The depth cap fires: between two facing perfect mirrors every ray hits and
/// every material scatters, and the path from the camera ends black after
/// exactly `MAX_DEPTH` scattered rays.
pub proof fn lemma_mirrors_end_black()
    ensures
        path_end(0, |d: u32| true, |d: u32| true) == (PathStep::Black, MAX_DEPTH as nat),
{
    lemma_always_scattering_ends_black(0);
}

proof fn lemma_always_scattering_ends_black(depth: u32)
    requires
        depth <= MAX_DEPTH,
    ensures
        path_end(depth, |d: u32| true, |d: u32| true) == (
            PathStep::Black,
            (MAX_DEPTH - depth) as nat,
        ),
    decreases MAX_DEPTH - depth,
{
    if depth < MAX_DEPTH {
        lemma_always_scattering_ends_black((depth + 1) as u32);
    }
}

} // verus!
