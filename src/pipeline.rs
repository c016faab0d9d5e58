//! The fixed-function state of the graphics pipeline.
use vstd::prelude::*;

use crate::error::SetupError;
use crate::presentation::RenderPassDesc;

verus! {

#[derive(Clone, Copy, Debug, PartialEq, Eq, Structural)]
pub enum Topology {
    TriangleList,
}

/// The pipeline's state. A vertex is one position of two 32-bit floats at
/// location 0; the push-constant block is a 2D translation of two floats.
#[derive(Clone, Copy, Debug, PartialEq, Eq, Structural)]
pub struct PipelineDesc {
    pub vertex_buffer_count: u32,
    pub position_location: u32,
    pub position_components: u32,
    pub vertex_stride_bytes: u32,
    pub topology: Topology,
    /// The viewport is set while recording; the scissor covers the framebuffer.
    pub dynamic_viewport: bool,
    pub subpass: u32,
    pub push_constant_bytes: u32,
    pub push_constants_in_vertex_stage: bool,
    pub depth_stencil: bool,
    pub blending: bool,
}

pub open spec fn pipeline_of() -> PipelineDesc {
    PipelineDesc {
        vertex_buffer_count: 1,
        position_location: 0,
        position_components: 2,
        vertex_stride_bytes: 8,
        topology: Topology::TriangleList,
        dynamic_viewport: true,
        subpass: 0,
        push_constant_bytes: 8,
        push_constants_in_vertex_stage: true,
        depth_stencil: false,
        blending: false,
    }
}

/// The pipeline for subpass 0 of `rp`, once the render pass's attachment
/// format has been checked against the swapchain's format. A render pass
/// without that subpass, or of another format, cannot take it.
pub fn describe_pipeline(rp: &RenderPassDesc, swapchain_format: u32) -> (r: Result<PipelineDesc, SetupError>)
    ensures
        match r {
            Ok(p) => rp.subpass_count > 0 && rp.format == swapchain_format && p == pipeline_of(),
            Err(e) => e == SetupError::PipelineCreation && (rp.subpass_count == 0 || rp.format != swapchain_format),
        },
{
    if rp.subpass_count == 0 || rp.format != swapchain_format {
        return Err(SetupError::PipelineCreation);
    }
    Ok(PipelineDesc {
        vertex_buffer_count: 1,
        position_location: 0,
        position_components: 2,
        vertex_stride_bytes: 8,
        topology: Topology::TriangleList,
        dynamic_viewport: true,
        subpass: 0,
        push_constant_bytes: 8,
        push_constants_in_vertex_stage: true,
        depth_stencil: false,
        blending: false,
    })
}

} // verus!
