use triangle_renderer::error::SetupError;
use triangle_renderer::pipeline::{describe_pipeline, Topology};
use triangle_renderer::presentation::{
    describe_render_pass, plan_framebuffers, plan_presentation, plan_swapchain, viewport_for, Extent, LoadOp,
    StoreOp, SurfaceCaps,
};

const FORMAT_A: u32 = 50;
const FORMAT_B: u32 = 44;

fn caps(min: u32, formats: Vec<u32>, alpha: Vec<u32>) -> SurfaceCaps {
    SurfaceCaps { min_image_count: min, supported_formats: formats, supported_composite_alpha: alpha }
}

#[test]
fn swapchain_takes_minimum_count_and_first_format() {
    let c = caps(2, vec![FORMAT_A, FORMAT_B], vec![1, 2]);
    let p = plan_swapchain(&c, Extent { width: 1920, height: 1080 }).unwrap();
    assert_eq!(p.image_count, 2);
    assert_eq!(p.format, FORMAT_A);
    assert_eq!(p.composite_alpha, 1);
    assert_eq!(p.extent, Extent { width: 1920, height: 1080 });
    assert!(p.color_attachment_only);
    assert!(p.exclusive_sharing);
}

#[test]
fn swapchain_needs_a_format_and_an_alpha_mode() {
    let w = Extent { width: 640, height: 480 };
    assert_eq!(plan_swapchain(&caps(2, vec![], vec![1]), w), Err(SetupError::SwapchainCreation));
    assert_eq!(plan_swapchain(&caps(2, vec![FORMAT_A], vec![]), w), Err(SetupError::SwapchainCreation));
    assert_eq!(plan_presentation(&caps(3, vec![], vec![]), w), Err(SetupError::SwapchainCreation));
}

#[test]
fn render_pass_uses_swapchain_format() {
    let c = caps(2, vec![FORMAT_B, FORMAT_A], vec![4]);
    let p = plan_presentation(&c, Extent { width: 1920, height: 1080 }).unwrap();
    assert_eq!(p.swapchain.format, FORMAT_B);
    assert_eq!(p.render_pass.format, FORMAT_B);
    assert_eq!(p.render_pass.load, LoadOp::Clear);
    assert_eq!(p.render_pass.store, StoreOp::Store);
    assert_eq!(p.render_pass.samples, 1);
    assert_eq!(p.render_pass.subpass_count, 1);
    assert!(!p.render_pass.has_depth_stencil);
    assert_eq!(p.viewport.width, 1920);
    assert_eq!(p.viewport.height, 1080);
}

#[test]
fn viewport_covers_whole_image() {
    let v = viewport_for(Extent { width: 1920, height: 1080 });
    assert_eq!((v.origin_x, v.origin_y), (0, 0));
    assert_eq!((v.width, v.height), (1920, 1080));
    assert_eq!((v.min_depth, v.max_depth), (0, 1));
}

#[test]
fn one_framebuffer_per_image() {
    let rp = describe_render_pass(FORMAT_A);
    let fbs = plan_framebuffers(3, &rp);
    assert_eq!(fbs.len(), 3);
    for (i, fb) in fbs.iter().enumerate() {
        assert_eq!(fb.image_index, i);
        assert_eq!(fb.format, FORMAT_A);
    }
    assert!(plan_framebuffers(0, &rp).is_empty());
}

#[test]
fn pipeline_for_subpass_zero() {
    let rp = describe_render_pass(FORMAT_A);
    let p = describe_pipeline(&rp, FORMAT_A).unwrap();
    assert_eq!(p.subpass, 0);
    assert_eq!(p.topology, Topology::TriangleList);
    assert_eq!(p.position_location, 0);
    assert_eq!(p.position_components, 2);
    assert_eq!(p.vertex_stride_bytes, 8);
    assert_eq!(p.push_constant_bytes, 8);
    assert!(p.dynamic_viewport);
    let mut none = rp;
    none.subpass_count = 0;
    assert_eq!(describe_pipeline(&none, FORMAT_A), Err(SetupError::PipelineCreation));
    assert_eq!(describe_pipeline(&rp, FORMAT_B), Err(SetupError::PipelineCreation));
}
