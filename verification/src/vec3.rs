//! Three-component vectors, used as points, directions and colours.

use crate::scalar::Scalar;
use vstd::prelude::*;

verus! {

/// Bit pattern of `1e-8`, the bound under which a component counts as zero.
pub const NEAR_ZERO_BITS: u64 = 0x3e45_798e_e230_8c3au64;

/// Bit pattern of `1.0`.
pub const ONE_BITS: u64 = 0x3ff0_0000_0000_0000u64;

/// Bit pattern of `1e-160`, under which a squared length is too small to
/// divide by.
pub const TINY_BITS: u64 = 0x1eb6_7e9c_127b_6e74u64;

#[derive(Clone, Copy, Debug)]
pub struct Vec3 {
    pub e: [Scalar; 3],
}

pub type Point3 = Vec3;

impl Vec3 {
    /// The vector of three zeros.
    pub open spec fn origin() -> Vec3 {
        Vec3 { e: [Scalar { bits: 0 }, Scalar { bits: 0 }, Scalar { bits: 0 }] }
    }

    pub fn new(x: Scalar, y: Scalar, z: Scalar) -> (v: Vec3)
        ensures
            v == (Vec3 { e: [x, y, z] }),
            v.e[0] == x,
            v.e[1] == y,
            v.e[2] == z,
    {
        Vec3 { e: [x, y, z] }
    }

    pub fn x(&self) -> (s: Scalar)
        ensures
            s == self.e[0],
    {
        self.e[0]
    }

    pub fn y(&self) -> (s: Scalar)
        ensures
            s == self.e[1],
    {
        self.e[1]
    }

    pub fn z(&self) -> (s: Scalar)
        ensures
            s == self.e[2],
    {
        self.e[2]
    }

    /// Every component is below `1e-8` in absolute value.
    pub open spec fn near_zero_spec(self) -> bool {
        &&& self.e[0].abs_lt_spec(Scalar { bits: NEAR_ZERO_BITS })
        &&& self.e[1].abs_lt_spec(Scalar { bits: NEAR_ZERO_BITS })
        &&& self.e[2].abs_lt_spec(Scalar { bits: NEAR_ZERO_BITS })
    }

    pub fn near_zero(self) -> (b: bool)
        ensures
            b == self.near_zero_spec(),
    {
        let s = Scalar::from_bits(NEAR_ZERO_BITS);
        self.e[0].abs_lt(s) && self.e[1].abs_lt(s) && self.e[2].abs_lt(s)
    }

    /// The opposite vector.
    pub open spec fn neg_spec(self) -> Vec3 {
        Vec3 {
            e: [self.e[0].neg_spec(), self.e[1].neg_spec(), self.e[2].neg_spec()],
        }
    }

    pub fn neg(self) -> (v: Vec3)
        ensures
            v == self.neg_spec(),
            v.e[0].key() == -self.e[0].key(),
            v.e[1].key() == -self.e[1].key(),
            v.e[2].key() == -self.e[2].key(),
    {
        let v = Vec3 { e: [self.e[0].neg(), self.e[1].neg(), self.e[2].neg()] };
        assert(v.e =~= self.neg_spec().e);
        v
    }
}

/// Whether a point drawn from the square from -1 to 1 lies in the unit
/// disk: its squared length is below 1. A draw that fails is drawn again.
pub open spec fn in_unit_disk_spec(length_squared: Scalar) -> bool {
    length_squared.lt_spec(Scalar { bits: ONE_BITS })
}

pub fn in_unit_disk(length_squared: Scalar) -> (accept: bool)
    ensures
        accept == in_unit_disk_spec(length_squared),
{
    length_squared.lt(Scalar::from_bits(ONE_BITS))
}

/// Whether a point drawn from the cube from -1 to 1 can be scaled onto the
/// unit sphere: its squared length is at most 1 and above `1e-160`. A draw
/// that fails is drawn again.
pub open spec fn normalizable_spec(length_squared: Scalar) -> bool {
    length_squared.le_spec(Scalar { bits: ONE_BITS }) && (Scalar { bits: TINY_BITS }).lt_spec(
        length_squared,
    )
}

pub fn normalizable(length_squared: Scalar) -> (accept: bool)
    ensures
        accept == normalizable_spec(length_squared),
{
    length_squared.le(Scalar::from_bits(ONE_BITS)) && Scalar::from_bits(TINY_BITS).lt(
        length_squared,
    )
}

/// The unit vector or its opposite, whichever lies on the side of the
/// normal: `facing` is their dot product.
pub fn random_on_hemisphere(on_unit_sphere: Vec3, facing: Scalar) -> (v: Vec3)
    ensures
        v == if (Scalar { bits: 0 }).lt_spec(facing) {
            on_unit_sphere
        } else {
            on_unit_sphere.neg_spec()
        },
{
    if Scalar::zero().lt(facing) {
        on_unit_sphere
    } else {
        on_unit_sphere.neg()
    }
}

} // verus!
