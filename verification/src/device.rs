//! Physical-device selection.
//!
//! The host enumerates the driver's physical devices and reports, for each,
//! its type, whether it supports the required extensions, and its queue
//! families with their graphics and presentation capabilities.  Selection
//! filters the candidates to those that can present graphics and picks the
//! one of best (lowest) type rank, earliest in enumeration order on ties.

use vstd::prelude::*;

verus! {

/// The classes a driver reports for a physical device.
#[derive(Clone, Copy, Debug, PartialEq, Eq, Structural)]
pub enum DeviceType {
    Discrete,
    Integrated,
    Virtual,
    Cpu,
    Other,
}

/// Preference rank of a device type: lower is preferred.
pub open spec fn spec_rank(t: DeviceType) -> int {
    match t {
        DeviceType::Discrete => 0,
        DeviceType::Integrated => 1,
        DeviceType::Virtual => 2,
        DeviceType::Cpu => 3,
        DeviceType::Other => 4,
    }
}

/// Preference rank of a device type: discrete GPUs first, then integrated,
/// virtual, software, and anything else last.
pub fn device_type_rank(t: DeviceType) -> (r: u32)
    ensures
        r == spec_rank(t),
{
    match t {
        DeviceType::Discrete => 0,
        DeviceType::Integrated => 1,
        DeviceType::Virtual => 2,
        DeviceType::Cpu => 3,
        DeviceType::Other => 4,
    }
}

/// What one of a device's queue families can do.
#[derive(Clone, Copy, Debug, PartialEq, Eq, Structural)]
pub struct QueueFamilyInfo {
    /// The family's id as the driver reports it.
    pub id: u32,
    /// Whether the family accepts graphics commands.
    pub supports_graphics: bool,
    /// Whether the family can present to the target surface.
    pub supports_present: bool,
}

/// One enumerated physical device, reduced to what selection reads.
#[derive(Debug)]
pub struct DeviceCandidate {
    /// The class the driver reports for this device.
    pub device_type: DeviceType,
    /// Whether the device supports every required extension.
    pub supports_required_extensions: bool,
    /// The device's queue families, in the driver's order.
    pub queue_families: Vec<QueueFamilyInfo>,
}

/// The outcome of selection: which enumerated device to use, and on which
/// of its queue families to submit work.
#[derive(Clone, Copy, Debug, PartialEq, Eq, Structural)]
pub struct DeviceSelection {
    /// Position of the chosen device in the enumeration.
    pub device_index: usize,
    /// Id of the chosen queue family.
    pub queue_family_id: u32,
}

/// A queue family qualifies when it accepts graphics commands and can
/// present to the surface.
pub open spec fn family_eligible(f: QueueFamilyInfo) -> bool {
    f.supports_graphics && f.supports_present
}

/// A device qualifies when it supports the required extensions and has at
/// least one qualifying queue family.
pub open spec fn candidate_eligible(c: DeviceCandidate) -> bool {
    &&& c.supports_required_extensions
    &&& exists|i: int| 0 <= i < c.queue_families@.len() && family_eligible(c.queue_families@[i])
}

/// `i` is the position of the first qualifying queue family.
pub open spec fn is_first_eligible_family(fams: Seq<QueueFamilyInfo>, i: int) -> bool {
    &&& 0 <= i < fams.len()
    &&& family_eligible(fams[i])
    &&& forall|j: int| 0 <= j < i ==> !family_eligible(fams[j])
}

/// `i` holds the winning candidate: eligible, of minimal rank among the
/// eligible, and earliest among those of that rank.
pub open spec fn is_selected_position(cs: Seq<DeviceCandidate>, i: int) -> bool {
    &&& 0 <= i < cs.len()
    &&& candidate_eligible(cs[i])
    &&& forall|j: int|
        0 <= j < cs.len() && candidate_eligible(#[trigger] cs[j])
            ==> spec_rank(cs[i].device_type) <= spec_rank(cs[j].device_type)
    &&& forall|j: int|
        0 <= j < i && candidate_eligible(#[trigger] cs[j])
            ==> spec_rank(cs[i].device_type) < spec_rank(cs[j].device_type)
}

/// Position of the first queue family that accepts graphics commands and can
/// present, or `None` when the device has no such family.
pub fn find_first_eligible_family(fams: &Vec<QueueFamilyInfo>) -> (r: Option<usize>)
    ensures
        match r {
            Some(i) => is_first_eligible_family(fams@, i as int),
            None => forall|j: int| 0 <= j < fams@.len() ==> !family_eligible(fams@[j]),
        },
{
    let mut i: usize = 0;
    while i < fams.len()
        invariant
            i <= fams@.len(),
            forall|j: int| 0 <= j < i ==> !family_eligible(fams@[j]),
        decreases fams@.len() - i,
    {
        let f = fams[i];
        if f.supports_graphics && f.supports_present {
            return Some(i);
        }
        i = i + 1;
    }
    None
}

/// Selects the physical device and queue family to use.
///
/// Candidates are given in the driver's enumeration order.  The result
/// names the eligible candidate of best type rank — earliest on ties — and
/// the id of its first qualifying queue family; `None` exactly when no
/// candidate is eligible.  The selection is a function of the candidate
/// list alone, so repeated runs over the same list agree.
pub fn select_device(candidates: &Vec<DeviceCandidate>) -> (r: Option<DeviceSelection>)
    ensures
        r is Some <==> exists|i: int|
            0 <= i < candidates@.len() && candidate_eligible(#[trigger] candidates@[i]),
        match r {
            Some(sel) => {
                &&& is_selected_position(candidates@, sel.device_index as int)
                &&& exists|k: int|
                    #[trigger] is_first_eligible_family(
                        candidates@[sel.device_index as int].queue_families@,
                        k,
                    ) && candidates@[sel.device_index as int].queue_families@[k].id
                        == sel.queue_family_id
            },
            None => true,
        },
{
    let mut best: Option<DeviceSelection> = None;
    let ghost mut best_rank: int = 0;
    let mut i: usize = 0;
    while i < candidates.len()
        invariant
            i <= candidates@.len(),
            match best {
                Some(sel) => {
                    &&& 0 <= sel.device_index < i
                    &&& candidate_eligible(candidates@[sel.device_index as int])
                    &&& best_rank == spec_rank(
                        candidates@[sel.device_index as int].device_type,
                    )
                    &&& forall|j: int|
                        0 <= j < i && candidate_eligible(#[trigger] candidates@[j])
                            ==> best_rank <= spec_rank(candidates@[j].device_type)
                    &&& forall|j: int|
                        0 <= j < sel.device_index && candidate_eligible(
                            #[trigger] candidates@[j],
                        ) ==> best_rank < spec_rank(candidates@[j].device_type)
                    &&& exists|k: int|
                        #[trigger] is_first_eligible_family(
                            candidates@[sel.device_index as int].queue_families@,
                            k,
                        ) && candidates@[sel.device_index as int].queue_families@[k].id
                            == sel.queue_family_id
                },
                None => forall|j: int|
                    0 <= j < i ==> !candidate_eligible(#[trigger] candidates@[j]),
            },
        decreases candidates@.len() - i,
    {
        let c = &candidates[i];
        if c.supports_required_extensions {
            match find_first_eligible_family(&c.queue_families) {
                Some(fi) => {
                    let rank: u32 = device_type_rank(c.device_type);
                    let replace: bool = match best {
                        Some(b) => rank < device_type_rank(
                            candidates[b.device_index].device_type,
                        ),
                        None => true,
                    };
                    if replace {
                        best = Some(DeviceSelection {
                            device_index: i,
                            queue_family_id: c.queue_families[fi].id,
                        });
                        proof {
                            best_rank = spec_rank(c.device_type);
                        }
                    }
                },
                None => {},
            }
        }
        i = i + 1;
    }
    best
}

/// The one device extension the renderer requires of a physical device.
#[derive(Clone, Copy, Debug, PartialEq, Eq, Structural)]
pub struct DeviceExtensionRequest {
    /// The swapchain extension, needed to present to a surface.
    pub khr_swapchain: bool,
}

/// The required extension set: the swapchain extension and nothing else.
pub fn required_device_extensions() -> (r: DeviceExtensionRequest)
    ensures
        r.khr_swapchain,
{
    DeviceExtensionRequest { khr_swapchain: true }
}

/// Queue priority handed to logical-device creation, in thousandths
/// (`500` stands for one half).
pub const QUEUE_PRIORITY_MILLI: u32 = 500;

/// What logical-device creation asks of the driver: one queue on the
/// selected family, at the fixed priority.
#[derive(Clone, Copy, Debug, PartialEq, Eq, Structural)]
pub struct QueueRequest {
    /// Id of the queue family the queue is created on.
    pub family_id: u32,
    /// Number of queues requested on that family.
    pub queue_count: u32,
    /// Queue priority in thousandths.
    pub priority_milli: u32,
}

/// The queue request derived from a device selection: exactly one queue on
/// the selected family at priority one half.
pub fn queue_request(sel: &DeviceSelection) -> (r: QueueRequest)
    ensures
        r.family_id == sel.queue_family_id,
        r.queue_count == 1,
        r.priority_milli == QUEUE_PRIORITY_MILLI,
{
    QueueRequest {
        family_id: sel.queue_family_id,
        queue_count: 1,
        priority_milli: QUEUE_PRIORITY_MILLI,
    }
}

/// The text the driver's device classes print as; used for the startup
/// line naming the selected device.
pub fn device_type_label(t: DeviceType) -> (r: &'static str)
    ensures
        t == DeviceType::Discrete ==> r@ == "DiscreteGpu"@,
        t == DeviceType::Integrated ==> r@ == "IntegratedGpu"@,
        t == DeviceType::Virtual ==> r@ == "VirtualGpu"@,
        t == DeviceType::Cpu ==> r@ == "Cpu"@,
        t == DeviceType::Other ==> r@ == "Other"@,
{
    match t {
        DeviceType::Discrete => "DiscreteGpu",
        DeviceType::Integrated => "IntegratedGpu",
        DeviceType::Virtual => "VirtualGpu",
        DeviceType::Cpu => "Cpu",
        DeviceType::Other => "Other",
    }
}

/// The winning position is unique: selection is deterministic for a fixed
/// candidate list and capability outcome.
pub proof fn lemma_selection_unique(cs: Seq<DeviceCandidate>, i1: int, i2: int)
    requires
        is_selected_position(cs, i1),
        is_selected_position(cs, i2),
    ensures
        i1 == i2,
{
    if i1 < i2 {
        assert(spec_rank(cs[i2].device_type) < spec_rank(cs[i1].device_type));
        assert(spec_rank(cs[i1].device_type) <= spec_rank(cs[i2].device_type));
    } else if i2 < i1 {
        assert(spec_rank(cs[i1].device_type) < spec_rank(cs[i2].device_type));
        assert(spec_rank(cs[i2].device_type) <= spec_rank(cs[i1].device_type));
    }
}

/// A discrete GPU is never passed over: when any eligible discrete device
/// exists, the selected device is discrete.
pub proof fn lemma_discrete_never_passed_over(cs: Seq<DeviceCandidate>, i: int, s: int)
    requires
        0 <= i < cs.len(),
        candidate_eligible(cs[i]),
        cs[i].device_type == DeviceType::Discrete,
        is_selected_position(cs, s),
    ensures
        cs[s].device_type == DeviceType::Discrete,
{
    assert(spec_rank(cs[s].device_type) <= spec_rank(cs[i].device_type));
}

} // verus!
