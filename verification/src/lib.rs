//! Integer core of a procedural terrain generator: the lattice hash that
//! drives the gradient noise, the grid and triangle mesh the terrain is drawn
//! on, the choice of compute pipeline, and the input handling of the camera.
use vstd::prelude::*;

pub mod controls;
pub mod mesh;
pub mod noise;
pub mod pipeline;
pub mod stats;

verus! {

} // verus!
