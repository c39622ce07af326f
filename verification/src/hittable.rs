//! Intersection records and the contract of a surface.

use crate::interval::Interval;
use crate::material::Material;
use crate::ray::Ray;
use crate::scalar::{lemma_neg, Scalar};
use crate::vec3::{Point3, Vec3};
use vstd::prelude::*;

verus! {

/// Where a ray met a surface.
#[derive(Clone, Copy, Debug)]
pub struct HitRecord {
    /// The ray parameter of the hit.
    pub t: Scalar,
    pub p: Point3,
    /// Unit normal, turned against the ray.
    pub normal: Vec3,
    /// Whether the ray came from outside the surface.
    pub front_face: bool,
    pub mat: Material,
}

impl HitRecord {
    /// Turns the normal against the ray. `facing` is the dot product of the
    /// ray's direction with `outward_normal`, which has unit length. The ray
    /// meets the front face when `facing < 0`; otherwise the stored normal
    /// is the opposite of the outward one.
    pub fn set_face_normal(&mut self, facing: Scalar, outward_normal: Vec3)
        ensures
            final(self).front_face == facing.lt_spec(Scalar { bits: 0 }),
            final(self).normal == if facing.lt_spec(Scalar { bits: 0 }) {
                outward_normal
            } else {
                outward_normal.neg_spec()
            },
            final(self).t == old(self).t,
            final(self).p == old(self).p,
            final(self).mat == old(self).mat,
    {
        self.front_face = facing.lt(Scalar::zero());
        if self.front_face {
            self.normal = outward_normal;
        } else {
            self.normal = outward_normal.neg();
        }
    }
}

/// The dot product of the ray's direction with the normal that
/// `set_face_normal` stores, given its dot product with the outward one:
/// negating a vector negates its dot products.
pub open spec fn stored_facing(facing: Scalar) -> Scalar {
    if facing.lt_spec(Scalar { bits: 0 }) {
        facing
    } else {
        facing.neg_spec()
    }
}

/// The stored normal never points along the ray: its dot product with the
/// ray's direction is at most zero, whichever side the ray came from.
pub proof fn lemma_stored_normal_opposes_ray(facing: Scalar)
    requires
        !facing.is_nan_spec(),
    ensures
        stored_facing(facing).le_spec(Scalar { bits: 0 }),
{
    lemma_neg(facing);
    assert(0u64 & 0x7fff_ffff_ffff_ffffu64 == 0) by (bit_vector);
    assert(0u64 & 0x8000_0000_0000_0000u64 == 0) by (bit_vector);
}

/// A surface that rays can hit.
///
/// `hit_spec` names what `hit` returns, and `lemma_hit_in_range` is the
/// implementor's promise that a hit lies inside the range asked for. An
/// implementation in code that is not verified gives the two an empty body;
/// what is proved of a scene then holds as far as its surfaces keep that
/// promise.
pub trait Hittable {
    /// The closest hit of `r` whose parameter lies strictly inside `ray_t`.
    spec fn hit_spec(&self, r: Ray, ray_t: Interval) -> Option<HitRecord>;

    /// A hit lies strictly inside the range that was asked for.
    proof fn lemma_hit_in_range(&self, r: Ray, ray_t: Interval)
        ensures
            self.hit_spec(r, ray_t) matches Some(h) ==> ray_t.surrounds_spec(h.t),
    ;

    fn hit(&self, r: &Ray, ray_t: Interval) -> (rec: Option<HitRecord>)
        ensures
            rec == self.hit_spec(*r, ray_t),
    ;
}

/// A boxed surface is hit as the surface in the box is, so that a scene can
/// hold surfaces of several kinds.
impl<H: Hittable + ?Sized> Hittable for Box<H> {
    open spec fn hit_spec(&self, r: Ray, ray_t: Interval) -> Option<HitRecord> {
        (**self).hit_spec(r, ray_t)
    }

    proof fn lemma_hit_in_range(&self, r: Ray, ray_t: Interval) {
        (**self).lemma_hit_in_range(r, ray_t);
    }

    fn hit(&self, r: &Ray, ray_t: Interval) -> (rec: Option<HitRecord>) {
        (**self).hit(r, ray_t)
    }
}

} // verus!
