//! Marker types of the background displays whose drawing happens on the GPU.
use vstd::prelude::*;

verus! {

/// Difference between the target density and the approximation from the
/// accepted samples, computed by a compute shader.
#[derive(Default, Clone, Copy, Debug)]
pub struct BDAComputeDiff {}

/// Difference between the target density and the approximation from the
/// accepted samples, computed in the fragment shader.
#[derive(Default, Clone, Copy, Debug)]
pub struct BDADiff {}

/// A fixed Gaussian drawn by a shader, for testing the render pipeline.
#[derive(Default, Clone, Copy, Debug)]
pub struct FixedGaussian {}

} // verus!
