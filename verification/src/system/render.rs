//! The draw commands of the frame.

use vstd::prelude::*;
use crate::renderer::gpu_resource_manager::{render_pass, GPUResourceManager, RenderCommand};

verus! {

/// Lays out the render pass of the frame.
pub struct Render;

impl Render {
    /// Runs the system, and hands back the steps of the render pass.
    pub fn run(&self, gpu: &GPUResourceManager) -> (pass: Vec<RenderCommand>)
        ensures
            pass@ == render_pass(gpu.meshes_by_atlas@),
    {
        gpu.render()
    }
}

} // verus!
