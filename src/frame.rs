//! One frame: acquire a swapchain image, record the draw, submit it, present
//! the image. The decisions are made here; the caller performs each action
//! and reports back what happened.
use vstd::prelude::*;

use crate::error::FrameError;

verus! {

/// The clear value of the color attachment at the start of the render pass.
#[derive(Clone, Copy, Debug, PartialEq, Eq, Structural)]
pub enum ClearColor {
    /// Red, green and blue 0, alpha 1.
    OpaqueBlack,
}

/// One command of the frame's command buffer.
#[derive(Clone, Copy, Debug, PartialEq, Eq, Structural)]
pub enum DrawCommand {
    /// Upload the caller's push-constant block at offset 0.
    PushConstants,
    BeginRenderPass { framebuffer: usize, clear: ClearColor },
    /// Set viewport 0 to the stored full-image viewport.
    SetViewport,
    BindPipeline,
    /// Bind the caller's vertex buffer at binding 0.
    BindVertexBuffer,
    Draw { vertex_count: u32, instance_count: u32, first_vertex: u32, first_instance: u32 },
    EndRenderPass,
}

/// The command buffer of a frame drawn into framebuffer `fb` from `n` vertices.
pub open spec fn frame_commands(fb: usize, n: u32) -> Seq<DrawCommand> {
    seq![
        DrawCommand::PushConstants,
        DrawCommand::BeginRenderPass { framebuffer: fb, clear: ClearColor::OpaqueBlack },
        DrawCommand::SetViewport,
        DrawCommand::BindPipeline,
        DrawCommand::BindVertexBuffer,
        DrawCommand::Draw { vertex_count: n, instance_count: 1, first_vertex: 0, first_instance: 0 },
        DrawCommand::EndRenderPass,
    ]
}

/// The single-use command buffer of one frame: push constants, the render
/// pass on framebuffer `framebuffer` cleared to opaque black, the viewport,
/// the pipeline, the vertex buffer, one draw of all `vertex_count` vertices
/// as one instance. A vertex count that a draw cannot carry is an error.
pub fn record_frame(framebuffer: usize, vertex_count: usize) -> (r: Result<Vec<DrawCommand>, FrameError>)
    ensures
        match r {
            Ok(cmds) => vertex_count <= u32::MAX && cmds@ == frame_commands(framebuffer, vertex_count as u32),
            Err(e) => e == FrameError::Render && vertex_count > u32::MAX,
        },
{
    if vertex_count > u32::MAX as usize {
        return Err(FrameError::Render);
    }
    let n = vertex_count as u32;
    let cmds = vec![
        DrawCommand::PushConstants,
        DrawCommand::BeginRenderPass { framebuffer, clear: ClearColor::OpaqueBlack },
        DrawCommand::SetViewport,
        DrawCommand::BindPipeline,
        DrawCommand::BindVertexBuffer,
        DrawCommand::Draw { vertex_count: n, instance_count: 1, first_vertex: 0, first_instance: 0 },
        DrawCommand::EndRenderPass,
    ];
    assert(cmds@ =~= frame_commands(framebuffer, n));
    Ok(cmds)
}

#[derive(Clone, Copy, Debug, PartialEq, Eq, Structural)]
pub enum FramePhase {
    Idle,
    Acquiring,
    Recording,
    Submitted,
    Presenting,
}

/// Where the current frame stands, and which swapchain image it draws into.
#[derive(Clone, Copy, Debug, PartialEq, Eq, Structural)]
pub struct FrameState {
    pub phase: FramePhase,
    pub image_index: usize,
}

/// What the caller reports after performing the last action.
#[derive(Clone, Copy, Debug, PartialEq, Eq, Structural)]
pub enum FrameEvent {
    RedrawRequested,
    ImageAcquired(usize),
    AcquireFailed,
    Recorded,
    SubmitCompleted,
    Presented,
    Failed,
}

/// What the caller is to do next.
#[derive(Clone, Copy, Debug, PartialEq, Eq, Structural)]
pub enum FrameAction {
    /// Ask the swapchain for the next image, waiting for it.
    AcquireImage,
    /// Record the frame's commands into the given framebuffer.
    Record { framebuffer: usize },
    /// Submit the recorded commands to the queue, after the acquisition.
    Submit,
    /// Present the image on the queue once the submission has completed.
    Present { image_index: usize },
    /// The frame has been presented; nothing is outstanding.
    FrameDone,
    /// The frame failed; the process is to stop.
    Abort(FrameError),
}

pub open spec fn idle() -> FrameState {
    FrameState { phase: FramePhase::Idle, image_index: 0 }
}

/// The transition table of a frame, for a swapchain of `image_count` images.
pub open spec fn frame_transition(s: FrameState, image_count: usize, ev: FrameEvent) -> (FrameState, FrameAction) {
    match (s.phase, ev) {
        (FramePhase::Idle, FrameEvent::RedrawRequested) => (
            FrameState { phase: FramePhase::Acquiring, image_index: 0 },
            FrameAction::AcquireImage,
        ),
        (FramePhase::Acquiring, FrameEvent::ImageAcquired(i)) => if i < image_count {
            (FrameState { phase: FramePhase::Recording, image_index: i }, FrameAction::Record { framebuffer: i })
        } else {
            (idle(), FrameAction::Abort(FrameError::Acquire))
        },
        (FramePhase::Acquiring, FrameEvent::AcquireFailed) => (idle(), FrameAction::Abort(FrameError::Acquire)),
        (FramePhase::Recording, FrameEvent::Recorded) => (
            FrameState { phase: FramePhase::Submitted, image_index: s.image_index },
            FrameAction::Submit,
        ),
        (FramePhase::Submitted, FrameEvent::SubmitCompleted) => (
            FrameState { phase: FramePhase::Presenting, image_index: s.image_index },
            FrameAction::Present { image_index: s.image_index },
        ),
        (FramePhase::Presenting, FrameEvent::Presented) => (idle(), FrameAction::FrameDone),
        _ => (idle(), FrameAction::Abort(FrameError::Render)),
    }
}

/// The next state and action of a frame after `ev`. Each step follows the
/// previous one only: an image is recorded only after it was acquired, work
/// is submitted only after recording, an image is presented only after its
/// submission completed. Any failure or out-of-order event aborts.
pub fn frame_step(s: FrameState, image_count: usize, ev: FrameEvent) -> (r: (FrameState, FrameAction))
    ensures
        r == frame_transition(s, image_count, ev),
        r.1 is Record ==> s.phase == FramePhase::Acquiring && r.1->framebuffer < image_count,
        r.1 is Submit ==> s.phase == FramePhase::Recording,
        r.1 is Present ==> s.phase == FramePhase::Submitted && r.1->image_index == s.image_index,
        r.1 is FrameDone ==> s.phase == FramePhase::Presenting,
        r.1 is AcquireImage ==> s.phase == FramePhase::Idle,
        r.1 is FrameDone || r.1 is Abort ==> r.0 == idle(),
{
    let idle = FrameState { phase: FramePhase::Idle, image_index: 0 };
    match (s.phase, ev) {
        (FramePhase::Idle, FrameEvent::RedrawRequested) => (
            FrameState { phase: FramePhase::Acquiring, image_index: 0 },
            FrameAction::AcquireImage,
        ),
        (FramePhase::Acquiring, FrameEvent::ImageAcquired(i)) => if i < image_count {
            (FrameState { phase: FramePhase::Recording, image_index: i }, FrameAction::Record { framebuffer: i })
        } else {
            (idle, FrameAction::Abort(FrameError::Acquire))
        },
        (FramePhase::Acquiring, FrameEvent::AcquireFailed) => (idle, FrameAction::Abort(FrameError::Acquire)),
        (FramePhase::Recording, FrameEvent::Recorded) => (
            FrameState { phase: FramePhase::Submitted, image_index: s.image_index },
            FrameAction::Submit,
        ),
        (FramePhase::Submitted, FrameEvent::SubmitCompleted) => (
            FrameState { phase: FramePhase::Presenting, image_index: s.image_index },
            FrameAction::Present { image_index: s.image_index },
        ),
        (FramePhase::Presenting, FrameEvent::Presented) => (idle, FrameAction::FrameDone),
        _ => (idle, FrameAction::Abort(FrameError::Render)),
    }
}

/// The frame that starts from idle on a redraw and whose every step succeeds,
/// with image `i` acquired, ends idle after presenting exactly image `i`.
pub proof fn lemma_successful_frame(image_count: usize, i: usize)
    requires
        i < image_count,
    ensures
        ({
            let (s1, a1) = frame_transition(idle(), image_count, FrameEvent::RedrawRequested);
            let (s2, a2) = frame_transition(s1, image_count, FrameEvent::ImageAcquired(i));
            let (s3, a3) = frame_transition(s2, image_count, FrameEvent::Recorded);
            let (s4, a4) = frame_transition(s3, image_count, FrameEvent::SubmitCompleted);
            let (s5, a5) = frame_transition(s4, image_count, FrameEvent::Presented);
            &&& a1 == FrameAction::AcquireImage
            &&& a2 == FrameAction::Record { framebuffer: i }
            &&& a3 == FrameAction::Submit
            &&& a4 == FrameAction::Present { image_index: i }
            &&& a5 == FrameAction::FrameDone
            &&& s5 == idle()
        }),
{
}

/// The step of the frame cycle that an action belongs to; an abort returns
/// to the start like a finished frame.
pub open spec fn action_stage(a: FrameAction) -> int {
    match a {
        FrameAction::AcquireImage => 1,
        FrameAction::Record { .. } => 2,
        FrameAction::Submit => 3,
        FrameAction::Present { .. } => 4,
        FrameAction::FrameDone => 0,
        FrameAction::Abort(_) => 0,
    }
}

pub open spec fn phase_stage(p: FramePhase) -> int {
    match p {
        FramePhase::Idle => 0,
        FramePhase::Acquiring => 1,
        FramePhase::Recording => 2,
        FramePhase::Submitted => 3,
        FramePhase::Presenting => 4,
    }
}

/// The state reached and the actions taken when `evs` arrive in order from `s`.
pub open spec fn run_frames(s: FrameState, image_count: usize, evs: Seq<FrameEvent>) -> (FrameState, Seq<FrameAction>)
    decreases evs.len(),
{
    if evs.len() == 0 {
        (s, Seq::empty())
    } else {
        let (m, acts) = run_frames(s, image_count, evs.drop_last());
        let (t, a) = frame_transition(m, image_count, evs.last());
        (t, acts.push(a))
    }
}

pub open spec fn ordered_actions(acts: Seq<FrameAction>) -> bool {
    &&& acts.len() > 0 && !(acts[0] is Abort) ==> acts[0] == FrameAction::AcquireImage
    &&& forall|i: int|
        0 <= i < acts.len() - 1 && !(#[trigger] acts[i + 1] is Abort) ==> action_stage(acts[i + 1]) == (
        action_stage(acts[i]) + 1) % 5
    &&& forall|i: int|
        0 <= i < acts.len() && (#[trigger] acts[i] is Present) ==> i >= 2 && acts[i - 2] == FrameAction::Record {
            framebuffer: acts[i]->image_index,
        }
}

/// Over any sequence of events from idle, the actions that are not aborts
/// follow the cycle acquire, record, submit, present, done, with no step
/// skipped or reordered within a frame or across frames, and each image
/// presented is the one whose framebuffer was recorded.
pub proof fn lemma_frames_in_order(image_count: usize, evs: Seq<FrameEvent>)
    ensures
        ordered_actions(run_frames(idle(), image_count, evs).1),
        run_frames(idle(), image_count, evs).1.len() == evs.len(),
        phase_stage(run_frames(idle(), image_count, evs).0.phase) == if evs.len() == 0 {
            0
        } else {
            action_stage(run_frames(idle(), image_count, evs).1.last())
        },
        ({
            let (t, acts) = run_frames(idle(), image_count, evs);
            phase_stage(t.phase) >= 2 ==> acts.len() >= phase_stage(t.phase) - 1 && acts[acts.len() - (
            phase_stage(t.phase) - 1)] == FrameAction::Record { framebuffer: t.image_index }
        }),
    decreases evs.len(),
{
    if evs.len() > 0 {
        lemma_frames_in_order(image_count, evs.drop_last());
        let (m, acts) = run_frames(idle(), image_count, evs.drop_last());
        let (t, a) = frame_transition(m, image_count, evs.last());
        let all = acts.push(a);
        assert(run_frames(idle(), image_count, evs) == (t, all));
        assert forall|i: int|
            0 <= i < all.len() - 1 && !(#[trigger] all[i + 1] is Abort) implies action_stage(all[i + 1]) == (
            action_stage(all[i]) + 1) % 5 by {
            if i + 1 < acts.len() {
                assert(all[i + 1] == acts[i + 1]);
                assert(all[i] == acts[i]);
            }
        }
        assert forall|i: int| 0 <= i < all.len() && (#[trigger] all[i] is Present) implies i >= 2 && all[i
            - 2] == FrameAction::Record { framebuffer: all[i]->image_index } by {
            if i < acts.len() {
                assert(all[i] == acts[i]);
                assert(all[i - 2] == acts[i - 2]);
            }
        }
    }
}

} // verus!
