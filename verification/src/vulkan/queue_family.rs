use vstd::prelude::*;

verus! {

/// `VK_QUEUE_GRAPHICS_BIT`.
pub const QUEUE_GRAPHICS: u32 = 1;

/// `VK_QUEUE_COMPUTE_BIT`.
pub const QUEUE_COMPUTE: u32 = 2;

/// `VK_QUEUE_TRANSFER_BIT`.
pub const QUEUE_TRANSFER: u32 = 4;

/// A queue family of the physical device: its index and its capability flags.
#[derive(Clone, Copy, Debug, PartialEq, Eq, Structural)]
pub struct EngineQueueFamily {
    pub index: u32,
    pub queue_flags: u32,
}

/// The four queue families the engine works with.
#[derive(Clone, Copy, Debug, PartialEq, Eq, Structural)]
pub struct PolishedQueueFamilies {
    pub graphics: EngineQueueFamily,
    pub present: EngineQueueFamily,
    pub compute: EngineQueueFamily,
    pub transfer: EngineQueueFamily,
}

/// Calls `ash::vk::QueueFlags::contains`, which in ash's source is
/// `self.0 & other.0 == other.0`: every flag of `required` is set in `flags`.
#[verifier::external_body]
fn queue_flags_contain(flags: u32, required: u32) -> (contains: bool)
    ensures
        contains == (flags & required == required),
{
    ash::vk::QueueFlags::from_raw(flags).contains(ash::vk::QueueFlags::from_raw(required))
}

/// The family supports every capability in `required`.
pub open spec fn supports(family: EngineQueueFamily, required: u32) -> bool {
    family.queue_flags & required == required
}

/// `i` is the first position of `families` satisfying `ok`.
pub open spec fn is_first_match(ok: Seq<bool>, i: int) -> bool {
    &&& 0 <= i < ok.len()
    &&& ok[i]
    &&& forall|j: int| 0 <= j < i ==> !ok[j]
}

/// Which families support `required`.
pub open spec fn support_map(families: Seq<EngineQueueFamily>, required: u32) -> Seq<bool> {
    Seq::new(families.len(), |i: int| supports(families[i], required))
}

/// The first family of `families` with every capability in `required`.
pub open spec fn first_supporting(families: Seq<EngineQueueFamily>, required: u32) -> Option<EngineQueueFamily> {
    if exists|i: int| is_first_match(support_map(families, required), i) {
        let i = choose|i: int| is_first_match(support_map(families, required), i);
        Some(families[i])
    } else {
        None
    }
}

/// The first family whose present-support answer is `true`.
pub open spec fn first_presenting(families: Seq<EngineQueueFamily>, present_support: Seq<bool>) -> Option<EngineQueueFamily> {
    if exists|i: int| is_first_match(present_support, i) {
        let i = choose|i: int| is_first_match(present_support, i);
        Some(families[i])
    } else {
        None
    }
}

proof fn lemma_first_match_unique(ok: Seq<bool>, i: int, j: int)
    requires
        is_first_match(ok, i),
        is_first_match(ok, j),
    ensures
        i == j,
{
}

fn pick_first(queue_families: &[EngineQueueFamily], ok: &Vec<bool>) -> (picked: Option<EngineQueueFamily>)
    requires
        ok@.len() == queue_families@.len(),
    ensures
        picked matches Some(f) ==> exists|i: int| is_first_match(ok@, i) && f == queue_families@[i],
        picked is None ==> !exists|i: int| is_first_match(ok@, i),
{
    let mut i: usize = 0;
    while i < queue_families.len()
        invariant
            i <= queue_families@.len(),
            ok@.len() == queue_families@.len(),
            forall|j: int| 0 <= j < i ==> !ok@[j],
        decreases queue_families@.len() - i,
    {
        if ok[i] {
            proof {
                assert(is_first_match(ok@, i as int));
            }
            return Some(queue_families[i]);
        }
        i = i + 1;
    }
    None
}

fn pick_supporting(queue_families: &[EngineQueueFamily], required: u32) -> (picked: Option<EngineQueueFamily>)
    ensures
        picked == first_supporting(queue_families@, required),
{
    let mut ok: Vec<bool> = Vec::new();
    let mut i: usize = 0;
    while i < queue_families.len()
        invariant
            i <= queue_families@.len(),
            ok@ == support_map(queue_families@, required).take(i as int),
        decreases queue_families@.len() - i,
    {
        ok.push(queue_flags_contain(queue_families[i].queue_flags, required));
        i = i + 1;
        proof {
            assert(ok@ =~= support_map(queue_families@, required).take(i as int));
        }
    }
    proof {
        assert(ok@ =~= support_map(queue_families@, required));
    }
    let picked = pick_first(queue_families, &ok);
    proof {
        if let Some(f) = picked {
            let i = choose|i: int| is_first_match(ok@, i) && f == queue_families@[i];
            let k = choose|k: int| is_first_match(support_map(queue_families@, required), k);
            lemma_first_match_unique(ok@, i, k);
        }
    }
    picked
}

/// The first family with graphics support.
pub fn pick_graphics_queue_family(queue_families: &[EngineQueueFamily]) -> (picked: Option<EngineQueueFamily>)
    ensures
        picked == first_supporting(queue_families@, QUEUE_GRAPHICS),
{
    pick_supporting(queue_families, QUEUE_GRAPHICS)
}

/// The first family with compute support.
pub fn pick_compute_queue_family(queue_families: &[EngineQueueFamily]) -> (picked: Option<EngineQueueFamily>)
    ensures
        picked == first_supporting(queue_families@, QUEUE_COMPUTE),
{
    pick_supporting(queue_families, QUEUE_COMPUTE)
}

/// The first family with transfer support.
pub fn pick_transfer_queue_family(queue_families: &[EngineQueueFamily]) -> (picked: Option<EngineQueueFamily>)
    ensures
        picked == first_supporting(queue_families@, QUEUE_TRANSFER),
{
    pick_supporting(queue_families, QUEUE_TRANSFER)
}

/// The first family that can present to the window surface. `present_support[i]`
/// is the device's answer for family `i` (a failed query counts as `false`).
pub fn pick_present_queue_family(queue_families: &[EngineQueueFamily], present_support: &Vec<bool>) -> (picked: Option<EngineQueueFamily>)
    requires
        present_support@.len() == queue_families@.len(),
    ensures
        picked == first_presenting(queue_families@, present_support@),
{
    let picked = pick_first(queue_families, present_support);
    proof {
        if let Some(f) = picked {
            let i = choose|i: int| is_first_match(present_support@, i) && f == queue_families@[i];
            let k = choose|k: int| is_first_match(present_support@, k);
            lemma_first_match_unique(present_support@, i, k);
        }
    }
    picked
}

impl PolishedQueueFamilies {
    /// The families the device can work with at all: one for graphics, one that can
    /// present, one for compute and one for transfer.
    pub open spec fn available(families: Seq<EngineQueueFamily>, present_support: Seq<bool>) -> bool {
        &&& first_supporting(families, QUEUE_GRAPHICS) is Some
        &&& first_presenting(families, present_support) is Some
        &&& first_supporting(families, QUEUE_COMPUTE) is Some
        &&& first_supporting(families, QUEUE_TRANSFER) is Some
    }

    /// Picks the first suitable family for each role.
    pub fn new(queue_families: &[EngineQueueFamily], present_support: &Vec<bool>) -> (qfs: PolishedQueueFamilies)
        requires
            present_support@.len() == queue_families@.len(),
            Self::available(queue_families@, present_support@),
        ensures
            Some(qfs.graphics) == first_supporting(queue_families@, QUEUE_GRAPHICS),
            Some(qfs.present) == first_presenting(queue_families@, present_support@),
            Some(qfs.compute) == first_supporting(queue_families@, QUEUE_COMPUTE),
            Some(qfs.transfer) == first_supporting(queue_families@, QUEUE_TRANSFER),
    {
        PolishedQueueFamilies {
            graphics: pick_graphics_queue_family(queue_families).unwrap(),
            present: pick_present_queue_family(queue_families, present_support).unwrap(),
            compute: pick_compute_queue_family(queue_families).unwrap(),
            transfer: pick_transfer_queue_family(queue_families).unwrap(),
        }
    }
}

/// The family picked for a capability supports it and no earlier family does; no
/// family is picked only when none supports it.
pub proof fn lemma_first_supporting(families: Seq<EngineQueueFamily>, required: u32)
    ensures
        first_supporting(families, required) matches Some(f) ==> exists|i: int|
            0 <= i < families.len() && families[i] == f && supports(f, required) && forall|j: int|
                0 <= j < i ==> !supports(#[trigger] families[j], required),
        first_supporting(families, required) is None <==> forall|i: int|
            0 <= i < families.len() ==> !supports(#[trigger] families[i], required),
{
    let ok = support_map(families, required);
    if exists|i: int| is_first_match(ok, i) {
        let i = choose|i: int| is_first_match(ok, i);
        assert(ok[i]);
        assert forall|j: int| 0 <= j < i implies !supports(#[trigger] families[j], required) by {
            assert(!ok[j]);
        }
    } else {
        assert forall|i: int| 0 <= i < families.len() implies !supports(#[trigger] families[i], required) by {
            if supports(families[i], required) {
                lemma_some_first_match(ok, i);
            }
        }
    }
}

proof fn lemma_some_first_match(ok: Seq<bool>, i: int)
    requires
        0 <= i < ok.len(),
        ok[i],
    ensures
        exists|k: int| is_first_match(ok, k),
    decreases i,
{
    if exists|j: int| 0 <= j < i && ok[j] {
        let j = choose|j: int| 0 <= j < i && ok[j];
        lemma_some_first_match(ok, j);
    } else {
        assert(is_first_match(ok, i));
    }
}

} // verus!
