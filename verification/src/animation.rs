//! Keyframe interpolation modes. Sampling a clip is floating-point work
//! done by the caller; the library only decides which mode a track uses.

use vstd::prelude::*;

verus! {

/// glTF 2.0 sampler interpolation. `CubicSpline` has no variant: a
/// cubic-spline channel is refused when a model is loaded rather than
/// misread as plain values.
#[derive(Copy, Clone, Debug, PartialEq, Eq, Structural)]
pub enum Interpolation {
    Linear,
    Step,
}

} // verus!
