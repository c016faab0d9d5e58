//! Choice of the physical device and queue family that rendering will use.
use vstd::prelude::*;

use crate::error::SetupError;

verus! {

/// Classification that the driver reports for a physical device.
#[derive(Clone, Copy, Debug, PartialEq, Eq, Structural)]
pub enum DeviceKind {
    DiscreteGpu,
    IntegratedGpu,
    VirtualGpu,
    Cpu,
    Other,
}

/// What one queue family of a device can do.
#[derive(Clone, Copy, Debug, PartialEq, Eq, Structural)]
pub struct QueueFamilyCaps {
    pub supports_graphics: bool,
    /// Whether the family can present to the window's surface.
    pub supports_present: bool,
}

/// One physical device as enumerated, with what the selection reads of it.
#[derive(Clone, Debug)]
pub struct DeviceCandidate {
    pub kind: DeviceKind,
    /// Whether the device offers every required device extension (the swapchain one).
    pub supports_required_extensions: bool,
    pub queue_families: Vec<QueueFamilyCaps>,
}

/// The chosen device (its position in the enumeration) and queue family.
#[derive(Clone, Copy, Debug, PartialEq, Eq, Structural)]
pub struct Selection {
    pub device_index: usize,
    pub queue_family_index: usize,
}

/// Preference rank of a device kind: lower is preferred.
pub open spec fn rank_of(k: DeviceKind) -> nat {
    match k {
        DeviceKind::DiscreteGpu => 0,
        _ => 1,
    }
}

pub open spec fn family_usable(q: QueueFamilyCaps) -> bool {
    q.supports_graphics && q.supports_present
}

/// `i` is the first usable family of `fams`.
pub open spec fn is_first_usable_family(fams: Seq<QueueFamilyCaps>, i: int) -> bool {
    &&& 0 <= i < fams.len()
    &&& family_usable(fams[i])
    &&& forall|j: int| 0 <= j < i ==> !family_usable(#[trigger] fams[j])
}

pub open spec fn has_usable_family(fams: Seq<QueueFamilyCaps>) -> bool {
    exists|i: int| 0 <= i < fams.len() && family_usable(#[trigger] fams[i])
}

/// A device passes the filter: required extensions and a usable queue family.
pub open spec fn qualifies(c: DeviceCandidate) -> bool {
    c.supports_required_extensions && has_usable_family(c.queue_families@)
}

pub open spec fn any_qualifies(cands: Seq<DeviceCandidate>) -> bool {
    exists|d: int| 0 <= d < cands.len() && qualifies(#[trigger] cands[d])
}

/// `d` is the qualifying device of lowest rank, the first in enumeration order among equals.
pub open spec fn is_preferred(cands: Seq<DeviceCandidate>, d: int) -> bool {
    &&& 0 <= d < cands.len()
    &&& qualifies(cands[d])
    &&& forall|j: int|
        0 <= j < cands.len() && qualifies(#[trigger] cands[j]) ==> rank_of(cands[d].kind) <= rank_of(
            cands[j].kind,
        )
    &&& forall|j: int|
        0 <= j < d && qualifies(#[trigger] cands[j]) ==> rank_of(cands[d].kind) < rank_of(
            cands[j].kind,
        )
}

/// The selection that the policy makes on `cands`.
pub open spec fn is_selection(cands: Seq<DeviceCandidate>, s: Selection) -> bool {
    &&& is_preferred(cands, s.device_index as int)
    &&& is_first_usable_family(
        cands[s.device_index as int].queue_families@,
        s.queue_family_index as int,
    )
}

pub fn rank(k: DeviceKind) -> (r: u8)
    ensures
        r as nat == rank_of(k),
{
    match k {
        DeviceKind::DiscreteGpu => 0,
        _ => 1,
    }
}

/// The first queue family that supports graphics and can present.
pub fn first_usable_family(fams: &Vec<QueueFamilyCaps>) -> (r: Option<usize>)
    ensures
        match r {
            Some(i) => is_first_usable_family(fams@, i as int),
            None => !has_usable_family(fams@),
        },
{
    let mut i: usize = 0;
    while i < fams.len()
        invariant
            0 <= i <= fams.len(),
            forall|j: int| 0 <= j < i ==> !family_usable(#[trigger] fams@[j]),
        decreases fams.len() - i,
    {
        let q = fams[i];
        if q.supports_graphics && q.supports_present {
            return Some(i);
        }
        i = i + 1;
    }
    None
}

/// Picks the device that rendering will use: among those with the required
/// extensions and a queue family that does graphics and presentation, a
/// discrete GPU before any other kind, the first enumerated among equals.
pub fn select_device(cands: &Vec<DeviceCandidate>) -> (r: Result<Selection, SetupError>)
    ensures
        match r {
            Ok(s) => is_selection(cands@, s),
            Err(e) => e == SetupError::NoSuitableDevice && !any_qualifies(cands@),
        },
{
    let mut best: Option<Selection> = None;
    let mut best_rank: u8 = 2;
    let mut d: usize = 0;
    while d < cands.len()
        invariant
            0 <= d <= cands.len(),
            match best {
                None => best_rank == 2 && forall|j: int| 0 <= j < d ==> !qualifies(#[trigger] cands@[j]),
                Some(s) => {
                    &&& s.device_index < d
                    &&& best_rank as nat == rank_of(cands@[s.device_index as int].kind)
                    &&& is_first_usable_family(
                        cands@[s.device_index as int].queue_families@,
                        s.queue_family_index as int,
                    )
                    &&& qualifies(cands@[s.device_index as int])
                    &&& forall|j: int|
                        0 <= j < d && qualifies(#[trigger] cands@[j]) ==> (best_rank as nat) <= rank_of(
                            cands@[j].kind,
                        )
                    &&& forall|j: int|
                        0 <= j < s.device_index && qualifies(#[trigger] cands@[j]) ==> (best_rank as nat) < rank_of(
                            cands@[j].kind,
                        )
                },
            },
        decreases cands.len() - d,
    {
        let c = &cands[d];
        if c.supports_required_extensions {
            match first_usable_family(&c.queue_families) {
                Some(q) => {
                    let k = rank(c.kind);
                    if k < best_rank {
                        best = Some(Selection { device_index: d, queue_family_index: q });
                        best_rank = k;
                    }
                },
                None => {},
            }
        }
        d = d + 1;
    }
    match best {
        Some(s) => Ok(s),
        None => Err(SetupError::NoSuitableDevice),
    }
}

/// What the logical device is created with.
#[derive(Clone, Copy, Debug, PartialEq, Eq, Structural)]
pub struct DeviceRequest {
    pub device_index: usize,
    pub queue_family_index: usize,
    /// Queues requested from that family, all at the same fixed priority.
    pub queue_count: u32,
    /// The swapchain extension, the one needed to present.
    pub enable_swapchain_extension: bool,
    pub enable_optional_features: bool,
}

pub open spec fn device_request_of(s: Selection) -> DeviceRequest {
    DeviceRequest {
        device_index: s.device_index,
        queue_family_index: s.queue_family_index,
        queue_count: 1,
        enable_swapchain_extension: true,
        enable_optional_features: false,
    }
}

/// The logical device for a selection: one queue of the chosen family, the
/// extensions that presentation needs, no optional feature.
pub fn device_request(s: Selection) -> (r: DeviceRequest)
    ensures
        r == device_request_of(s),
{
    DeviceRequest {
        device_index: s.device_index,
        queue_family_index: s.queue_family_index,
        queue_count: 1,
        enable_swapchain_extension: true,
        enable_optional_features: false,
    }
}

/// Whenever some qualifying device is a discrete GPU, the preferred device is a
/// discrete GPU, wherever it stands in the enumeration.
pub proof fn lemma_discrete_gpu_preferred(cands: Seq<DeviceCandidate>, d: int, s: Selection)
    requires
        0 <= d < cands.len(),
        qualifies(cands[d]),
        cands[d].kind == DeviceKind::DiscreteGpu,
        is_selection(cands, s),
    ensures
        cands[s.device_index as int].kind == DeviceKind::DiscreteGpu,
{
    assert(qualifies(cands[d]));
}

/// Where no device qualifies there is no selection at all, so no device can
/// be requested.
pub proof fn lemma_no_selection_without_qualifying_device(cands: Seq<DeviceCandidate>, s: Selection)
    requires
        !any_qualifies(cands),
    ensures
        !is_selection(cands, s),
{
    if is_selection(cands, s) {
        assert(qualifies(cands[s.device_index as int]));
    }
}

/// There is exactly one selection for a list with a qualifying device.
pub proof fn lemma_selection_unique(cands: Seq<DeviceCandidate>, s: Selection, t: Selection)
    requires
        is_selection(cands, s),
        is_selection(cands, t),
    ensures
        s == t,
{
    let a = s.device_index as int;
    let b = t.device_index as int;
    if a < b {
        assert(qualifies(cands[a]));
    } else if b < a {
        assert(qualifies(cands[b]));
    }
    let fams = cands[a].queue_families@;
    let i = s.queue_family_index as int;
    let k = t.queue_family_index as int;
    if i < k {
        assert(family_usable(fams[i]));
    } else if k < i {
        assert(family_usable(fams[k]));
    }
}

} // verus!
