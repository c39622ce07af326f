//! Configuration errors.

use vstd::prelude::*;

verus! {

/// Why a scene or camera parameter was refused.
#[derive(Clone, Copy, Debug, PartialEq, Eq, Structural)]
pub enum ConfigError {
    /// A sphere's radius is not above zero.
    RadiusNotPositive,
    /// The number of samples per pixel is not above zero.
    NoSamples,
    /// The pixel rows handed over do not have the image's width and height.
    ShapeMismatch,
}

impl ConfigError {
    /// A sentence for the user.
    pub fn message(&self) -> (s: &'static str)
        ensures
            s@.len() > 0,
            (*self == ConfigError::RadiusNotPositive) == (s == "sphere radius must be greater than zero"),
            (*self == ConfigError::NoSamples) == (s == "samples per pixel must be greater than zero"),
            (*self == ConfigError::ShapeMismatch) == (s == "pixel rows do not match the image size"),
    {
        proof {
            reveal_strlit("sphere radius must be greater than zero");
            reveal_strlit("samples per pixel must be greater than zero");
            reveal_strlit("pixel rows do not match the image size");
        }
        match self {
            ConfigError::RadiusNotPositive => "sphere radius must be greater than zero",
            ConfigError::NoSamples => "samples per pixel must be greater than zero",
            ConfigError::ShapeMismatch => "pixel rows do not match the image size",
        }
    }
}

} // verus!
