//! Verified decision logic of a collection of shader playground scenes: which
//! scene a key selects, the render-world state machines that drive the compute
//! pipelines, the buffer ranges they bind, and the integer vertex attributes
//! that the scenes attach to their meshes.
use vstd::prelude::*;

pub mod compute_shader;
pub mod cube_attributes;
pub mod mesh_creation;
pub mod mesh_manipulation;
pub mod pipeline;
pub mod scene;
pub mod specialized_pipeline;

verus! {

} // verus!
