//! The radiance estimator: how a light path ends.
//!
//! A path is followed bounce by bounce. The caller intersects the ray with
//! the scene and lets the material scatter; this module decides from what
//! happened whether the path goes on, and with what radiance it ends. The
//! radiance of a path is the product of the attenuations along it and the
//! radiance at its end.

use crate::hittable::{HitRecord, Hittable};
use crate::hittable_list::HittableList;
use crate::interval::Interval;
use crate::ray::Ray;
use crate::scalar::{Scalar, INFINITY_BITS};
use vstd::prelude::*;

verus! {

/// Bit pattern of `0.001`: hits closer than this to a ray's origin are
/// taken for the surface that the ray left.
pub const NEAR_LIMIT_BITS: u64 = 0x3f50_624d_d2f1_a9fcu64;

/// What became of the ray at one bounce.
#[derive(Clone, Copy, Debug, PartialEq, Eq, Structural)]
pub enum Bounce {
    /// The ray met no surface.
    Miss,
    /// The ray met a surface whose material absorbed it.
    Absorbed,
    /// The ray met a surface whose material scattered it.
    Scattered,
}

/// The radiance at the end of a path.
#[derive(Clone, Copy, Debug, PartialEq, Eq, Structural)]
pub enum PathEnd {
    /// No light: the path was absorbed or ran out of depth.
    Black,
    /// The light of the environment in the direction of the last ray.
    Environment,
}

/// What to do after a bounce.
#[derive(Clone, Copy, Debug, PartialEq, Eq, Structural)]
pub enum Step {
    Finished(PathEnd),
    /// Follow the scattered ray with this depth left.
    Continue { depth: i32 },
}

/// The end of a path and the number of bounces it took.
#[derive(Clone, Copy, Debug, PartialEq, Eq, Structural)]
pub struct PathOutcome {
    pub end: PathEnd,
    pub bounces: usize,
}

/// The next step of a path with `depth` left whose ray did `bounce`.
pub open spec fn step_spec(depth: int, bounce: Bounce) -> Step {
    if depth <= 0 {
        Step::Finished(PathEnd::Black)
    } else {
        match bounce {
            Bounce::Miss => Step::Finished(PathEnd::Environment),
            Bounce::Absorbed => Step::Finished(PathEnd::Black),
            Bounce::Scattered => Step::Continue { depth: (depth - 1) as i32 },
        }
    }
}

/// How the path that starts at bounce `at` of `bounces` with `depth` left
/// ends, and the index after its last bounce; `None` where `bounces` ends
/// before the path does.
pub open spec fn path_spec(depth: int, bounces: Seq<Bounce>, at: int) -> Option<(PathEnd, int)>
    decreases bounces.len() - at,
{
    if depth <= 0 {
        Some((PathEnd::Black, at))
    } else if at < 0 || at >= bounces.len() {
        None
    } else {
        match bounces[at] {
            Bounce::Miss => Some((PathEnd::Environment, at + 1)),
            Bounce::Absorbed => Some((PathEnd::Black, at + 1)),
            Bounce::Scattered => path_spec(depth - 1, bounces, at + 1),
        }
    }
}

/// The range in which hits are looked for: above `0.001`, without upper
/// end.
pub open spec fn search_range_spec() -> Interval {
    Interval { min: Scalar { bits: NEAR_LIMIT_BITS }, max: Scalar { bits: INFINITY_BITS } }
}

pub fn search_range() -> (iv: Interval)
    ensures
        iv == search_range_spec(),
{
    Interval::new(Scalar::from_bits(NEAR_LIMIT_BITS), Scalar::from_bits(INFINITY_BITS))
}

/// The closest hit of a ray in the scene, looked for in the search range.
pub fn intersect<H: Hittable>(world: &H, r: &Ray) -> (rec: Option<HitRecord>)
    ensures
        rec == world.hit_spec(*r, search_range_spec()),
{
    world.hit(r, search_range())
}

/// Whether a path has no depth left. Such a path is black, and its ray is
/// not intersected with the scene.
pub fn exhausted(depth: i32) -> (b: bool)
    ensures
        b == (depth <= 0),
        b ==> forall|bounce: Bounce| step_spec(depth as int, bounce) == Step::Finished(PathEnd::Black),
{
    depth <= 0
}

/// What a bounce was, from whether the scene was hit and, if it was,
/// whether the material scattered.
pub open spec fn classify_spec(hit: bool, scattered: bool) -> Bounce {
    if !hit {
        Bounce::Miss
    } else if scattered {
        Bounce::Scattered
    } else {
        Bounce::Absorbed
    }
}

pub fn classify(hit: bool, scattered: bool) -> (bounce: Bounce)
    ensures
        bounce == classify_spec(hit, scattered),
{
    if !hit {
        Bounce::Miss
    } else if scattered {
        Bounce::Scattered
    } else {
        Bounce::Absorbed
    }
}

/// The next step of a path with `depth` left.
pub fn step(depth: i32, bounce: Bounce) -> (next: Step)
    ensures
        next == step_spec(depth as int, bounce),
{
    if depth <= 0 {
        return Step::Finished(PathEnd::Black);
    }
    match bounce {
        Bounce::Miss => Step::Finished(PathEnd::Environment),
        Bounce::Absorbed => Step::Finished(PathEnd::Black),
        Bounce::Scattered => Step::Continue { depth: depth - 1 },
    }
}

/// A band of the striped environment.
#[derive(Clone, Copy, Debug, PartialEq, Eq, Structural)]
pub enum Band {
    Blue,
    Pink,
    White,
}

/// Bit patterns of `0.8`, `0.6`, `0.4` and `0.2`, where the bands meet.
pub const BAND_4_BITS: u64 = 0x3fe9_9999_9999_999au64;

pub const BAND_3_BITS: u64 = 0x3fe3_3333_3333_3333u64;

pub const BAND_2_BITS: u64 = 0x3fd9_9999_9999_999au64;

pub const BAND_1_BITS: u64 = 0x3fc9_9999_9999_999au64;

/// The band of the striped environment at height `a`, which runs from 0 at
/// the bottom to 1 at the top: five bands of equal height, white in the
/// middle, pink beside it and blue at both ends.
pub open spec fn band_spec(a: Scalar) -> Band {
    if (Scalar { bits: BAND_4_BITS }).le_spec(a) {
        Band::Blue
    } else if (Scalar { bits: BAND_3_BITS }).le_spec(a) {
        Band::Pink
    } else if (Scalar { bits: BAND_2_BITS }).le_spec(a) {
        Band::White
    } else if (Scalar { bits: BAND_1_BITS }).le_spec(a) {
        Band::Pink
    } else {
        Band::Blue
    }
}

pub fn band(a: Scalar) -> (b: Band)
    ensures
        b == band_spec(a),
{
    if Scalar::from_bits(BAND_4_BITS).le(a) {
        Band::Blue
    } else if Scalar::from_bits(BAND_3_BITS).le(a) {
        Band::Pink
    } else if Scalar::from_bits(BAND_2_BITS).le(a) {
        Band::White
    } else if Scalar::from_bits(BAND_1_BITS).le(a) {
        Band::Pink
    } else {
        Band::Blue
    }
}

/// Follows a recorded path: `bounces` holds what each ray did, the primary
/// ray first. Returns how the path ends and after how many bounces, or
/// `None` where the record ends before the path does.
pub fn ray_color(depth: i32, bounces: &Vec<Bounce>) -> (r: Option<PathOutcome>)
    ensures
        r is Some == path_spec(depth as int, bounces@, 0) is Some,
        r matches Some(o) ==> path_spec(depth as int, bounces@, 0) == Some((o.end, o.bounces as int)),
{
    let mut left: i32 = depth;
    let mut i: usize = 0;
    loop
        invariant
            i <= bounces@.len(),
            path_spec(depth as int, bounces@, 0) == path_spec(left as int, bounces@, i as int),
        decreases bounces@.len() - i,
    {
        if exhausted(left) {
            return Some(PathOutcome { end: PathEnd::Black, bounces: i });
        }
        if i >= bounces.len() {
            return None;
        }
        match step(left, bounces[i]) {
            Step::Finished(end) => {
                return Some(PathOutcome { end, bounces: i + 1 });
            },
            Step::Continue { depth: rest } => {
                left = rest;
                i += 1;
            },
        }
    }
}

/// A path with no depth left is black, whatever the scene holds.
pub proof fn lemma_no_depth_is_black(depth: int, bounces: Seq<Bounce>)
    requires
        depth <= 0,
    ensures
        path_spec(depth, bounces, 0) == Some((PathEnd::Black, 0int)),
        forall|bounce: Bounce| step_spec(depth, bounce) == Step::Finished(PathEnd::Black),
{
}

/// A path takes at most as many bounces as it has depth, and a record of
/// that many bounces always suffices.
pub proof fn lemma_path_bounded(depth: int, bounces: Seq<Bounce>, at: int)
    requires
        0 <= at <= bounces.len(),
        0 <= depth,
    ensures
        path_spec(depth, bounces, at) matches Some((_, end)) ==> at <= end <= at + depth,
        at + depth <= bounces.len() ==> path_spec(depth, bounces, at) is Some,
    decreases bounces.len() - at,
{
    if depth > 0 && at < bounces.len() {
        if bounces[at] == Bounce::Scattered {
            lemma_path_bounded(depth - 1, bounces, at + 1);
        }
    }
}

/// A path whose first ray misses ends with the light of the environment.
pub proof fn lemma_miss_is_environment(depth: int, bounces: Seq<Bounce>)
    requires
        depth > 0,
        bounces.len() > 0,
        bounces[0] == Bounce::Miss,
    ensures
        path_spec(depth, bounces, 0) == Some((PathEnd::Environment, 1int)),
        step_spec(depth, Bounce::Miss) == Step::Finished(PathEnd::Environment),
{
}

/// In a scene without surfaces every ray with depth left shows the
/// environment: the scene is not hit, which is a miss, and a miss ends the
/// path there.
pub proof fn lemma_empty_scene_shows_environment<H: Hittable>(
    world: HittableList<H>,
    r: Ray,
    depth: int,
    scattered: bool,
)
    requires
        world.objects@.len() == 0,
        depth > 0,
    ensures
        world.hit_spec(r, search_range_spec()) is None,
        step_spec(depth, classify_spec(world.hit_spec(r, search_range_spec()) is Some, scattered))
            == Step::Finished(PathEnd::Environment),
{
}

} // verus!
