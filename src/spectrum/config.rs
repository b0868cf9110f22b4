//! The modes that a spectrum processor is configured with.
use vstd::prelude::*;

verus! {

/// How bin volumes are raised with their frequency, so that high frequencies
/// stay visible.
#[derive(Clone, Copy, Debug, PartialEq, Eq, Structural)]
pub enum VolumeNormalisation {
    /// Volumes stay as they are.
    Off,
    Exponential,
    Logarithmic,
    Mixture,
}

/// How bin positions are remapped so that low frequencies take more room.
#[derive(Clone, Copy, Debug, PartialEq, Eq, Structural)]
pub enum PositionNormalisation {
    Linear,
    Exponential,
    Harmonic,
}

/// How bins are laid onto the output slots.
#[derive(Clone, Copy, Debug, PartialEq, Eq, Structural)]
pub enum Interpolation {
    /// Bins keep their own positions; the caller lays them out.
    Off,
    Step,
    Cubic,
    Linear,
    Gaps,
}

} // verus!
