//! Swapchain configuration, render pass description, viewport and the
//! framebuffers that bind each swapchain image to the render pass.
use vstd::prelude::*;

use crate::error::SetupError;

verus! {

/// A two-dimensional size in pixels.
#[derive(Clone, Copy, Debug, PartialEq, Eq, Structural)]
pub struct Extent {
    pub width: u32,
    pub height: u32,
}

/// What the surface reports for the chosen physical device. Formats and
/// composite-alpha modes are the driver's codes, in the order reported.
#[derive(Clone, Debug)]
pub struct SurfaceCaps {
    pub min_image_count: u32,
    pub supported_formats: Vec<u32>,
    pub supported_composite_alpha: Vec<u32>,
}

/// How the swapchain is to be created.
#[derive(Clone, Copy, Debug, PartialEq, Eq, Structural)]
pub struct SwapchainPlan {
    pub image_count: u32,
    pub format: u32,
    pub composite_alpha: u32,
    pub extent: Extent,
    /// Images are used as color attachments only.
    pub color_attachment_only: bool,
    /// Images are owned by the single queue, never shared.
    pub exclusive_sharing: bool,
}

#[derive(Clone, Copy, Debug, PartialEq, Eq, Structural)]
pub enum LoadOp {
    Clear,
    Load,
    DontCare,
}

#[derive(Clone, Copy, Debug, PartialEq, Eq, Structural)]
pub enum StoreOp {
    Store,
    DontCare,
}

/// A render pass of one subpass writing one color attachment.
#[derive(Clone, Copy, Debug, PartialEq, Eq, Structural)]
pub struct RenderPassDesc {
    pub format: u32,
    pub load: LoadOp,
    pub store: StoreOp,
    pub samples: u32,
    pub subpass_count: u32,
    pub has_depth_stencil: bool,
}

/// A viewport with origin (0, 0) and depth range [0, 1]; only its size varies.
#[derive(Clone, Copy, Debug, PartialEq, Eq, Structural)]
pub struct ViewportDesc {
    pub origin_x: u32,
    pub origin_y: u32,
    pub width: u32,
    pub height: u32,
    pub min_depth: u32,
    pub max_depth: u32,
}

/// The framebuffer of one swapchain image: one color view of that image,
/// attached to a render pass of the given format.
#[derive(Clone, Copy, Debug, PartialEq, Eq, Structural)]
pub struct FramebufferDesc {
    pub image_index: usize,
    pub format: u32,
}

/// Everything the presentation surface is made of, before the driver is asked.
#[derive(Clone, Copy, Debug, PartialEq, Eq, Structural)]
pub struct PresentationPlan {
    pub swapchain: SwapchainPlan,
    pub render_pass: RenderPassDesc,
    pub viewport: ViewportDesc,
}

pub open spec fn swapchain_plan_of(min_image_count: u32, format: u32, alpha: u32, window: Extent) -> SwapchainPlan {
    SwapchainPlan {
        image_count: min_image_count,
        format,
        composite_alpha: alpha,
        extent: window,
        color_attachment_only: true,
        exclusive_sharing: true,
    }
}

pub open spec fn render_pass_of(format: u32) -> RenderPassDesc {
    RenderPassDesc {
        format,
        load: LoadOp::Clear,
        store: StoreOp::Store,
        samples: 1,
        subpass_count: 1,
        has_depth_stencil: false,
    }
}

pub open spec fn viewport_of(e: Extent) -> ViewportDesc {
    ViewportDesc { origin_x: 0, origin_y: 0, width: e.width, height: e.height, min_depth: 0, max_depth: 1 }
}

/// Framebuffer `i` wraps image `i`, for every image, with the render pass's format.
pub open spec fn framebuffers_match(fbs: Seq<FramebufferDesc>, image_count: nat, rp: RenderPassDesc) -> bool {
    &&& fbs.len() == image_count
    &&& forall|i: int| 0 <= i < fbs.len() ==> (#[trigger] fbs[i]).image_index == i && fbs[i].format == rp.format
}

/// Some framebuffer wraps image `img`.
pub open spec fn image_has_framebuffer(fbs: Seq<FramebufferDesc>, img: int) -> bool {
    exists|i: int| 0 <= i < fbs.len() && (#[trigger] fbs[i]).image_index == img
}

/// Swapchain settings from the surface's capabilities: the minimum image
/// count, the first supported format, the first supported composite-alpha
/// mode, and the window's size.
pub fn plan_swapchain(caps: &SurfaceCaps, window: Extent) -> (r: Result<SwapchainPlan, SetupError>)
    ensures
        match r {
            Ok(p) => caps.supported_formats@.len() > 0 && caps.supported_composite_alpha@.len() > 0
                && p == swapchain_plan_of(
                caps.min_image_count,
                caps.supported_formats@[0],
                caps.supported_composite_alpha@[0],
                window,
            ),
            Err(e) => e == SetupError::SwapchainCreation && (caps.supported_formats@.len() == 0
                || caps.supported_composite_alpha@.len() == 0),
        },
{
    if caps.supported_formats.len() == 0 || caps.supported_composite_alpha.len() == 0 {
        return Err(SetupError::SwapchainCreation);
    }
    Ok(SwapchainPlan {
        image_count: caps.min_image_count,
        format: caps.supported_formats[0],
        composite_alpha: caps.supported_composite_alpha[0],
        extent: window,
        color_attachment_only: true,
        exclusive_sharing: true,
    })
}

/// One color attachment of the given format, cleared on load and stored, one
/// sample, in a single subpass with no depth or stencil.
pub fn describe_render_pass(format: u32) -> (r: RenderPassDesc)
    ensures
        r == render_pass_of(format),
{
    RenderPassDesc {
        format,
        load: LoadOp::Clear,
        store: StoreOp::Store,
        samples: 1,
        subpass_count: 1,
        has_depth_stencil: false,
    }
}

/// The full-image viewport of an image of size `e`.
pub fn viewport_for(e: Extent) -> (r: ViewportDesc)
    ensures
        r == viewport_of(e),
{
    ViewportDesc { origin_x: 0, origin_y: 0, width: e.width, height: e.height, min_depth: 0, max_depth: 1 }
}

/// The presentation objects to create: the swapchain from the surface's
/// capabilities, then a render pass of the swapchain's format, and a viewport
/// over the whole image.
pub fn plan_presentation(caps: &SurfaceCaps, window: Extent) -> (r: Result<PresentationPlan, SetupError>)
    ensures
        match r {
            Ok(p) => caps.supported_formats@.len() > 0 && caps.supported_composite_alpha@.len() > 0
                && p.swapchain == swapchain_plan_of(
                caps.min_image_count,
                caps.supported_formats@[0],
                caps.supported_composite_alpha@[0],
                window,
            ) && p.render_pass == render_pass_of(p.swapchain.format) && p.viewport == viewport_of(window),
            Err(e) => e == SetupError::SwapchainCreation && (caps.supported_formats@.len() == 0
                || caps.supported_composite_alpha@.len() == 0),
        },
{
    match plan_swapchain(caps, window) {
        Ok(swapchain) => {
            let render_pass = describe_render_pass(swapchain.format);
            let viewport = viewport_for(swapchain.extent);
            Ok(PresentationPlan { swapchain, render_pass, viewport })
        },
        Err(e) => Err(e),
    }
}

/// One framebuffer per swapchain image, in image order, each bound to `rp`.
pub fn plan_framebuffers(image_count: usize, rp: &RenderPassDesc) -> (r: Vec<FramebufferDesc>)
    ensures
        framebuffers_match(r@, image_count as nat, *rp),
{
    let mut fbs: Vec<FramebufferDesc> = Vec::new();
    let mut i: usize = 0;
    while i < image_count
        invariant
            0 <= i <= image_count,
            framebuffers_match(fbs@, i as nat, *rp),
        decreases image_count - i,
    {
        fbs.push(FramebufferDesc { image_index: i, format: rp.format });
        i = i + 1;
    }
    fbs
}

/// Every swapchain image has exactly one framebuffer and no framebuffer shares
/// an image with another.
pub proof fn lemma_framebuffers_one_to_one(fbs: Seq<FramebufferDesc>, image_count: nat, rp: RenderPassDesc)
    requires
        framebuffers_match(fbs, image_count, rp),
    ensures
        fbs.len() == image_count,
        forall|a: int, b: int|
            0 <= a < fbs.len() && 0 <= b < fbs.len() && a != b ==> (#[trigger] fbs[a]).image_index
                != (#[trigger] fbs[b]).image_index,
        forall|img: int| 0 <= img < image_count ==> #[trigger] image_has_framebuffer(fbs, img),
{
    assert forall|img: int| 0 <= img < image_count implies #[trigger] image_has_framebuffer(fbs, img) by {
        assert(fbs[img].image_index == img);
    }
}

/// The render pass and every framebuffer carry the swapchain's chosen format.
pub proof fn lemma_formats_agree(p: PresentationPlan, fbs: Seq<FramebufferDesc>, image_count: nat)
    requires
        p.render_pass == render_pass_of(p.swapchain.format),
        framebuffers_match(fbs, image_count, p.render_pass),
    ensures
        p.render_pass.format == p.swapchain.format,
        forall|i: int| 0 <= i < fbs.len() ==> (#[trigger] fbs[i]).format == p.swapchain.format,
{
}

} // verus!
