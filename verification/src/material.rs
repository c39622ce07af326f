//! Surface materials and what each decides when a ray is scattered.

use crate::hittable::HitRecord;
use crate::ray::Ray;
use crate::scalar::Scalar;
use crate::vec3::{Vec3, ONE_BITS};
use vstd::prelude::*;

verus! {

pub type Color = Vec3;

/// What leaves a surface: the ray, and the factor by which each colour
/// channel of its radiance is dimmed.
#[derive(Clone, Copy, Debug)]
pub struct Scatter {
    pub attenuation: Color,
    pub ray: Ray,
}

/// A diffuse surface.
#[derive(Clone, Copy, Debug)]
pub struct Lambertian {
    pub albedo: Color,
}

/// A mirror, blurred by `fuzz`.
#[derive(Clone, Copy, Debug)]
pub struct Metal {
    pub albedo: Color,
    pub fuzz: Scalar,
}

/// A clear surface that reflects or refracts.
#[derive(Clone, Copy, Debug)]
pub struct Dielectric {
    pub refraction_index: Scalar,
}

/// The closed set of materials.
#[derive(Clone, Copy, Debug)]
pub enum Material {
    Lambertian(Lambertian),
    Metal(Metal),
    Dielectric(Dielectric),
}

/// Whether a dielectric reflects or refracts.
#[derive(Clone, Copy, Debug, PartialEq, Eq, Structural)]
pub enum Bend {
    Reflect,
    Refract,
}

/// Opaque white: the attenuation that dims nothing.
pub open spec fn white() -> Color {
    Vec3 { e: [Scalar { bits: ONE_BITS }, Scalar { bits: ONE_BITS }, Scalar { bits: ONE_BITS }] }
}

impl Lambertian {
    pub fn new(albedo: Color) -> (m: Lambertian)
        ensures
            m.albedo == albedo,
    {
        Lambertian { albedo }
    }

    /// The direction in which a diffuse surface scatters: the sum of the
    /// normal and a random unit vector, or the bare normal where that sum
    /// is near zero.
    pub open spec fn direction_spec(rec: HitRecord, scatter_direction: Vec3) -> Vec3 {
        if scatter_direction.near_zero_spec() {
            rec.normal
        } else {
            scatter_direction
        }
    }

    /// Scatters from the hit point. `scatter_direction` is the sum of the
    /// hit's normal and a random unit vector. Always scatters, dimmed by
    /// the albedo.
    pub fn scatter(&self, rec: &HitRecord, scatter_direction: Vec3) -> (r: Option<Scatter>)
        ensures
            r == Some(
                Scatter {
                    attenuation: self.albedo,
                    ray: Ray { orig: rec.p, dir: Self::direction_spec(*rec, scatter_direction) },
                },
            ),
    {
        let direction = if scatter_direction.near_zero() {
            rec.normal
        } else {
            scatter_direction
        };
        Some(Scatter { attenuation: self.albedo, ray: Ray::new(rec.p, direction) })
    }
}

impl Metal {
    pub fn new(albedo: Color, fuzz: Scalar) -> (m: Metal)
        ensures
            m.albedo == albedo,
            m.fuzz == fuzz,
    {
        Metal { albedo, fuzz }
    }

    /// Scatters along `reflected`, the unit mirror direction perturbed by
    /// `fuzz` times a random unit vector; `facing` is its dot product with
    /// the hit's normal. The ray is absorbed exactly when `facing <= 0`:
    /// the perturbed direction points into the surface.
    pub fn scatter(&self, rec: &HitRecord, reflected: Vec3, facing: Scalar) -> (r: Option<Scatter>)
        ensures
            facing.le_spec(Scalar { bits: 0 }) <==> r is None,
            r is Some ==> r == Some(
                Scatter { attenuation: self.albedo, ray: Ray { orig: rec.p, dir: reflected } },
            ),
    {
        if facing.le(Scalar::zero()) {
            return None;
        }
        Some(Scatter { attenuation: self.albedo, ray: Ray::new(rec.p, reflected) })
    }
}

impl Dielectric {
    pub fn new(refraction_index: Scalar) -> (m: Dielectric)
        ensures
            m.refraction_index == refraction_index,
    {
        Dielectric { refraction_index }
    }

    /// Whether the ratio of indices is the reciprocal of the material's
    /// index (the ray enters through the front face) or the index itself.
    pub fn uses_reciprocal(&self, rec: &HitRecord) -> (b: bool)
        ensures
            b == rec.front_face,
    {
        rec.front_face
    }

    /// Refraction is impossible where `sine_ratio`, the ratio of indices
    /// times the sine of the incidence angle, is above 1.
    pub open spec fn cannot_refract_spec(sine_ratio: Scalar) -> bool {
        (Scalar { bits: ONE_BITS }).lt_spec(sine_ratio)
    }

    /// What the surface does when no random number is needed to say so:
    /// it reflects, where refraction is impossible. Otherwise a number is
    /// to be drawn for `bend`.
    pub fn bend_without_draw(sine_ratio: Scalar) -> (b: Option<Bend>)
        ensures
            b == if Self::cannot_refract_spec(sine_ratio) {
                Some(Bend::Reflect)
            } else {
                None
            },
    {
        if Scalar::from_bits(ONE_BITS).lt(sine_ratio) {
            Some(Bend::Reflect)
        } else {
            None
        }
    }

    /// Reflects when refraction is impossible or when `draw`, a uniform
    /// random number, falls below `reflectance`.
    pub open spec fn bend_spec(sine_ratio: Scalar, reflectance: Scalar, draw: Scalar) -> Bend {
        if Self::cannot_refract_spec(sine_ratio) || draw.lt_spec(reflectance) {
            Bend::Reflect
        } else {
            Bend::Refract
        }
    }

    pub fn bend(sine_ratio: Scalar, reflectance: Scalar, draw: Scalar) -> (b: Bend)
        ensures
            b == Self::bend_spec(sine_ratio, reflectance, draw),
    {
        match Self::bend_without_draw(sine_ratio) {
            Some(b) => b,
            None => if draw.lt(reflectance) {
                Bend::Reflect
            } else {
                Bend::Refract
            },
        }
    }

    /// Scatters from the hit point along `direction`, the reflected or
    /// refracted direction that `bend` chose. Always scatters, and dims
    /// nothing.
    pub fn scatter(&self, rec: &HitRecord, direction: Vec3) -> (r: Option<Scatter>)
        ensures
            r == Some(Scatter { attenuation: white(), ray: Ray { orig: rec.p, dir: direction } }),
    {
        let one = Scalar::from_bits(ONE_BITS);
        let attenuation = Vec3::new(one, one, one);
        assert(attenuation.e =~= white().e);
        Some(Scatter { attenuation, ray: Ray::new(rec.p, direction) })
    }
}

} // verus!
