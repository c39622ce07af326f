//! Acceptance ranges for the ray parameter.

use crate::scalar::Scalar;
use vstd::prelude::*;

verus! {

/// The numbers strictly between `min` and `max`.
#[derive(Clone, Copy, Debug)]
pub struct Interval {
    pub min: Scalar,
    pub max: Scalar,
}

impl Interval {
    /// `min < x < max`.
    pub open spec fn surrounds_spec(self, x: Scalar) -> bool {
        self.min.lt_spec(x) && x.lt_spec(self.max)
    }

    pub fn new(min: Scalar, max: Scalar) -> (iv: Interval)
        ensures
            iv.min == min,
            iv.max == max,
    {
        Interval { min, max }
    }

    pub fn surrounds(&self, x: Scalar) -> (b: bool)
        ensures
            b == self.surrounds_spec(x),
    {
        self.min.lt(x) && x.lt(self.max)
    }

    /// `x` brought into the range: `min` where `x < min`, `max` where
    /// `x > max`, else `x` itself.
    pub open spec fn clamp_spec(self, x: Scalar) -> Scalar {
        if x.lt_spec(self.min) {
            self.min
        } else if self.max.lt_spec(x) {
            self.max
        } else {
            x
        }
    }

    pub fn clamp(&self, x: Scalar) -> (y: Scalar)
        ensures
            y == self.clamp_spec(x),
    {
        if x.lt(self.min) {
            self.min
        } else if self.max.lt(x) {
            self.max
        } else {
            x
        }
    }
}

} // verus!
