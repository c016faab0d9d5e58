//! The objects that rendering owns, which of them uses which, and the order
//! in which they are built and torn down.
use vstd::prelude::*;

verus! {

#[derive(Clone, Copy, Debug, PartialEq, Eq, Structural)]
pub enum Resource {
    Instance,
    Surface,
    LogicalDevice,
    Queue,
    Swapchain,
    RenderPass,
    Framebuffers,
    Pipeline,
}

/// `a` holds a reference to `b`, so `b` must outlive `a`.
pub open spec fn uses(a: Resource, b: Resource) -> bool {
    match (a, b) {
        (Resource::Surface, Resource::Instance) => true,
        (Resource::LogicalDevice, Resource::Instance) => true,
        (Resource::Queue, Resource::LogicalDevice) => true,
        (Resource::Swapchain, Resource::LogicalDevice) => true,
        (Resource::Swapchain, Resource::Surface) => true,
        (Resource::RenderPass, Resource::LogicalDevice) => true,
        (Resource::Framebuffers, Resource::LogicalDevice) => true,
        (Resource::Framebuffers, Resource::Swapchain) => true,
        (Resource::Framebuffers, Resource::RenderPass) => true,
        (Resource::Pipeline, Resource::LogicalDevice) => true,
        (Resource::Pipeline, Resource::RenderPass) => true,
        _ => false,
    }
}

pub open spec fn creation_seq() -> Seq<Resource> {
    seq![
        Resource::Instance,
        Resource::Surface,
        Resource::LogicalDevice,
        Resource::Queue,
        Resource::Swapchain,
        Resource::RenderPass,
        Resource::Framebuffers,
        Resource::Pipeline,
    ]
}

/// The position of `r` in the order of creation.
pub open spec fn level(r: Resource) -> int {
    match r {
        Resource::Instance => 0,
        Resource::Surface => 1,
        Resource::LogicalDevice => 2,
        Resource::Queue => 3,
        Resource::Swapchain => 4,
        Resource::RenderPass => 5,
        Resource::Framebuffers => 6,
        Resource::Pipeline => 7,
    }
}

/// The order in which the objects are built: each after everything it uses.
pub fn creation_order() -> (r: Vec<Resource>)
    ensures
        r@ == creation_seq(),
{
    let r = vec![
        Resource::Instance,
        Resource::Surface,
        Resource::LogicalDevice,
        Resource::Queue,
        Resource::Swapchain,
        Resource::RenderPass,
        Resource::Framebuffers,
        Resource::Pipeline,
    ];
    assert(r@ =~= creation_seq());
    r
}

/// The order in which the objects are destroyed: the reverse of creation.
pub fn teardown_order() -> (r: Vec<Resource>)
    ensures
        r@ == creation_seq().reverse(),
{
    let c = creation_order();
    let mut r: Vec<Resource> = Vec::new();
    let mut i: usize = c.len();
    while i > 0
        invariant
            c@ == creation_seq(),
            0 <= i <= c@.len(),
            r@.len() == c@.len() - i,
            forall|k: int| 0 <= k < r@.len() ==> r@[k] == #[trigger] c@[c@.len() - 1 - k],
        decreases i,
    {
        i = i - 1;
        r.push(c[i]);
    }
    assert(r@ =~= creation_seq().reverse());
    r
}

proof fn lemma_levels()
    ensures
        forall|i: int| 0 <= i < 8 ==> level(#[trigger] creation_seq()[i]) == i,
        forall|a: Resource, b: Resource| #[trigger] uses(a, b) ==> level(b) < level(a),
        forall|r: Resource| 0 <= #[trigger] level(r) < 8,
        creation_seq().len() == 8,
{
}

/// Building in creation order and destroying in teardown order, every object
/// is built after all it uses and destroyed before all it uses, so no object
/// ever refers to one that is gone. Each object is built and destroyed once.
pub proof fn lemma_no_dangling_references()
    ensures
        forall|i: int, j: int|
            0 <= i < creation_seq().len() && 0 <= j < creation_seq().len() && uses(
                #[trigger] creation_seq()[i],
                #[trigger] creation_seq()[j],
            ) ==> j < i,
        forall|i: int, j: int|
            0 <= i < creation_seq().reverse().len() && 0 <= j < creation_seq().reverse().len() && uses(
                #[trigger] creation_seq().reverse()[i],
                #[trigger] creation_seq().reverse()[j],
            ) ==> i < j,
        forall|r: Resource| #[trigger] creation_seq().contains(r),
        forall|i: int, j: int|
            0 <= i < j < creation_seq().len() ==> #[trigger] creation_seq()[i] != #[trigger] creation_seq()[j],
        creation_seq().reverse().len() == creation_seq().len(),
{
    lemma_levels();
    assert forall|r: Resource| #[trigger] creation_seq().contains(r) by {
        assert(creation_seq()[level(r)] == r);
    }
    assert forall|i: int, j: int|
        0 <= i < creation_seq().reverse().len() && 0 <= j < creation_seq().reverse().len() && uses(
            #[trigger] creation_seq().reverse()[i],
            #[trigger] creation_seq().reverse()[j],
        ) implies i < j by {
        assert(creation_seq().reverse()[i] == creation_seq()[7 - i]);
        assert(creation_seq().reverse()[j] == creation_seq()[7 - j]);
    }
}

} // verus!
