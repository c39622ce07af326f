//! The sphere primitive.

use crate::error::ConfigError;
use crate::hittable::HitRecord;
use crate::interval::Interval;
use crate::material::Material;
use crate::scalar::Scalar;
use crate::vec3::{Point3, Vec3};
use vstd::prelude::*;

verus! {

/// A sphere with a radius above zero.
#[derive(Clone, Copy, Debug)]
pub struct Sphere {
    center: Point3,
    radius: Scalar,
    material: Material,
}

/// The ray parameter at which a ray meets a sphere, given the reduced
/// discriminant of the quadratic and its two roots, the smaller first. No
/// hit where the discriminant is negative. Otherwise the smaller root if it
/// lies strictly inside `ray_t`, else the larger if that does, else no hit.
pub open spec fn select_root_spec(
    discriminant: Scalar,
    near: Scalar,
    far: Scalar,
    ray_t: Interval,
) -> Option<Scalar> {
    if discriminant.lt_spec(Scalar { bits: 0 }) {
        None
    } else if ray_t.surrounds_spec(near) {
        Some(near)
    } else if ray_t.surrounds_spec(far) {
        Some(far)
    } else {
        None
    }
}

impl Sphere {
    #[verifier::type_invariant]
    spec fn radius_is_positive(self) -> bool {
        (Scalar { bits: 0 }).lt_spec(self.radius)
    }

    pub closed spec fn center_spec(self) -> Point3 {
        self.center
    }

    pub closed spec fn radius_spec(self) -> Scalar {
        self.radius
    }

    pub closed spec fn material_spec(self) -> Material {
        self.material
    }

    /// Refuses a radius that is not above zero.
    pub fn new(center: Point3, radius: Scalar, material: Material) -> (r: Result<Sphere, ConfigError>)
        ensures
            (Scalar { bits: 0 }).lt_spec(radius) <==> r is Ok,
            r matches Ok(s) ==> s.center_spec() == center && s.radius_spec() == radius
                && s.material_spec() == material,
            r matches Err(e) ==> e == ConfigError::RadiusNotPositive,
    {
        if Scalar::zero().lt(radius) {
            Ok(Sphere { center, radius, material })
        } else {
            Err(ConfigError::RadiusNotPositive)
        }
    }

    pub fn center(&self) -> (c: Point3)
        ensures
            c == self.center_spec(),
    {
        self.center
    }

    /// The radius, which is above zero.
    pub fn radius(&self) -> (r: Scalar)
        ensures
            r == self.radius_spec(),
            (Scalar { bits: 0 }).lt_spec(r),
    {
        proof {
            use_type_invariant(self);
        }
        self.radius
    }

    pub fn material(&self) -> (m: Material)
        ensures
            m == self.material_spec(),
    {
        self.material
    }

    pub fn select_root(discriminant: Scalar, near: Scalar, far: Scalar, ray_t: Interval) -> (t: Option<
        Scalar,
    >)
        ensures
            t == select_root_spec(discriminant, near, far, ray_t),
    {
        if discriminant.lt(Scalar::zero()) {
            return None;
        }
        if ray_t.surrounds(near) {
            Some(near)
        } else if ray_t.surrounds(far) {
            Some(far)
        } else {
            None
        }
    }

    /// The record of a hit at parameter `t` and point `p`. `outward_normal`
    /// is the vector from the centre to `p` divided by the radius, and
    /// `facing` its dot product with the ray's direction.
    pub fn hit_record(&self, t: Scalar, p: Point3, outward_normal: Vec3, facing: Scalar) -> (rec:
        HitRecord)
        ensures
            rec.t == t,
            rec.p == p,
            rec.mat == self.material_spec(),
            rec.front_face == facing.lt_spec(Scalar { bits: 0 }),
            rec.normal == if rec.front_face {
                outward_normal
            } else {
                outward_normal.neg_spec()
            },
    {
        let mut rec = HitRecord {
            t,
            p,
            normal: outward_normal,
            front_face: false,
            mat: self.material,
        };
        rec.set_face_normal(facing, outward_normal);
        rec
    }
}

/// A root that was selected lies strictly inside the range, and is one of
/// the two roots.
pub proof fn lemma_selected_root_in_range(
    discriminant: Scalar,
    near: Scalar,
    far: Scalar,
    ray_t: Interval,
)
    ensures
        select_root_spec(discriminant, near, far, ray_t) matches Some(t) ==> ray_t.surrounds_spec(t)
            && (t == near || t == far) && !discriminant.lt_spec(Scalar { bits: 0 }),
{
}

/// Of two roots in order, the one selected is the closest that the range
/// admits: the larger is selected only where the range refuses the smaller.
pub proof fn lemma_selected_root_closest(
    discriminant: Scalar,
    near: Scalar,
    far: Scalar,
    ray_t: Interval,
)
    requires
        near.le_spec(far),
    ensures
        select_root_spec(discriminant, near, far, ray_t) matches Some(t) ==> (ray_t.surrounds_spec(
            near,
        ) ==> t.le_spec(near)) && (ray_t.surrounds_spec(far) ==> t.le_spec(far)),
{
}

} // verus!
