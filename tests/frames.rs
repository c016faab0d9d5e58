use triangle_renderer::control::{handle_event, run_events, LoopAction, LoopEvent, LoopState};
use triangle_renderer::error::FrameError;
use triangle_renderer::frame::{
    frame_step, record_frame, ClearColor, DrawCommand, FrameAction, FrameEvent, FramePhase, FrameState,
};
use triangle_renderer::lifecycle::{creation_order, teardown_order, Resource};
use triangle_renderer::presentation::{plan_framebuffers, plan_presentation, Extent, SurfaceCaps};

fn idle() -> FrameState {
    FrameState { phase: FramePhase::Idle, image_index: 0 }
}

#[test]
fn one_frame_presents_one_image() {
    let images: usize = 2;
    let (s, a) = frame_step(idle(), images, FrameEvent::RedrawRequested);
    assert_eq!(a, FrameAction::AcquireImage);
    let (s, a) = frame_step(s, images, FrameEvent::ImageAcquired(1));
    assert_eq!(a, FrameAction::Record { framebuffer: 1 });
    let (s, a) = frame_step(s, images, FrameEvent::Recorded);
    assert_eq!(a, FrameAction::Submit);
    let (s, a) = frame_step(s, images, FrameEvent::SubmitCompleted);
    assert_eq!(a, FrameAction::Present { image_index: 1 });
    let (s, a) = frame_step(s, images, FrameEvent::Presented);
    assert_eq!(a, FrameAction::FrameDone);
    assert_eq!(s, idle());
}

#[test]
fn frame_failures_abort() {
    let acquiring = FrameState { phase: FramePhase::Acquiring, image_index: 0 };
    assert_eq!(frame_step(acquiring, 2, FrameEvent::AcquireFailed).1, FrameAction::Abort(FrameError::Acquire));
    assert_eq!(frame_step(acquiring, 2, FrameEvent::ImageAcquired(2)).1, FrameAction::Abort(FrameError::Acquire));
    let recording = FrameState { phase: FramePhase::Recording, image_index: 1 };
    assert_eq!(frame_step(recording, 2, FrameEvent::Failed), (idle(), FrameAction::Abort(FrameError::Render)));
    assert_eq!(frame_step(idle(), 2, FrameEvent::SubmitCompleted).1, FrameAction::Abort(FrameError::Render));
}

#[test]
fn triangle_commands() {
    let cmds = record_frame(1, 3).unwrap();
    assert_eq!(
        cmds,
        vec![
            DrawCommand::PushConstants,
            DrawCommand::BeginRenderPass { framebuffer: 1, clear: ClearColor::OpaqueBlack },
            DrawCommand::SetViewport,
            DrawCommand::BindPipeline,
            DrawCommand::BindVertexBuffer,
            DrawCommand::Draw { vertex_count: 3, instance_count: 1, first_vertex: 0, first_instance: 0 },
            DrawCommand::EndRenderPass,
        ]
    );
}

#[test]
fn too_many_vertices_for_a_draw() {
    assert_eq!(record_frame(0, u32::MAX as usize + 1), Err(FrameError::Render));
    assert!(record_frame(0, u32::MAX as usize).is_ok());
}

#[test]
fn close_stops_rendering() {
    let events = vec![
        LoopEvent::Other,
        LoopEvent::RedrawEventsCleared,
        LoopEvent::CloseRequested,
        LoopEvent::RedrawEventsCleared,
        LoopEvent::CloseRequested,
    ];
    assert_eq!(
        run_events(&events),
        vec![LoopAction::Wait, LoopAction::Render, LoopAction::Exit, LoopAction::Ignore, LoopAction::Ignore]
    );
    let (s, a) = handle_event(LoopState { exited: false }, LoopEvent::CloseRequested);
    assert_eq!(a, LoopAction::Exit);
    assert_eq!(handle_event(s, LoopEvent::RedrawEventsCleared).1, LoopAction::Ignore);
}

#[test]
fn close_first_means_no_render() {
    let events = vec![LoopEvent::CloseRequested, LoopEvent::RedrawEventsCleared];
    assert_eq!(run_events(&events), vec![LoopAction::Exit, LoopAction::Ignore]);
}

#[test]
fn teardown_reverses_creation() {
    let c = creation_order();
    let t = teardown_order();
    assert_eq!(c.first(), Some(&Resource::Instance));
    assert_eq!(t.first(), Some(&Resource::Pipeline));
    assert_eq!(t.last(), Some(&Resource::Instance));
    let mut r = c.clone();
    r.reverse();
    assert_eq!(t, r);
    let pos = |x: Resource| t.iter().position(|y| *y == x).unwrap();
    assert!(pos(Resource::Framebuffers) < pos(Resource::Swapchain));
    assert!(pos(Resource::Swapchain) < pos(Resource::Surface));
    assert!(pos(Resource::Pipeline) < pos(Resource::RenderPass));
    assert!(pos(Resource::LogicalDevice) < pos(Resource::Instance));
}

#[test]
fn fixed_window_triangle_frame() {
    let caps = SurfaceCaps { min_image_count: 2, supported_formats: vec![50, 44], supported_composite_alpha: vec![1] };
    let plan = plan_presentation(&caps, Extent { width: 1920, height: 1080 }).unwrap();
    let fbs = plan_framebuffers(plan.swapchain.image_count as usize, &plan.render_pass);
    let triangle: [(f32, f32); 3] = [(0.0, -0.5), (0.5, 0.5), (-0.5, 0.5)];
    let mut presented = Vec::new();
    let mut state = idle();
    let mut event = FrameEvent::RedrawRequested;
    loop {
        let (next, action) = frame_step(state, fbs.len(), event);
        state = next;
        event = match action {
            FrameAction::AcquireImage => FrameEvent::ImageAcquired(0),
            FrameAction::Record { framebuffer } => {
                let cmds = record_frame(framebuffer, triangle.len()).unwrap();
                assert_eq!(
                    cmds[5],
                    DrawCommand::Draw { vertex_count: 3, instance_count: 1, first_vertex: 0, first_instance: 0 }
                );
                FrameEvent::Recorded
            }
            FrameAction::Submit => FrameEvent::SubmitCompleted,
            FrameAction::Present { image_index } => {
                presented.push(image_index);
                FrameEvent::Presented
            }
            FrameAction::FrameDone => break,
            FrameAction::Abort(e) => panic!("frame aborted: {:?}", e),
        };
    }
    assert_eq!(presented, vec![0]);
    assert_eq!(state, idle());
}

#[test]
fn frames_follow_one_another() {
    let mut actions = Vec::new();
    let mut state = idle();
    let events = [
        FrameEvent::RedrawRequested,
        FrameEvent::ImageAcquired(0),
        FrameEvent::Recorded,
        FrameEvent::SubmitCompleted,
        FrameEvent::Presented,
        FrameEvent::RedrawRequested,
        FrameEvent::ImageAcquired(1),
        FrameEvent::Presented,
        FrameEvent::RedrawRequested,
    ];
    for ev in events {
        let (next, a) = frame_step(state, 2, ev);
        state = next;
        actions.push(a);
    }
    assert_eq!(
        actions,
        vec![
            FrameAction::AcquireImage,
            FrameAction::Record { framebuffer: 0 },
            FrameAction::Submit,
            FrameAction::Present { image_index: 0 },
            FrameAction::FrameDone,
            FrameAction::AcquireImage,
            FrameAction::Record { framebuffer: 1 },
            FrameAction::Abort(FrameError::Render),
            FrameAction::AcquireImage,
        ]
    );
    assert_eq!(state, FrameState { phase: FramePhase::Acquiring, image_index: 0 });
}
