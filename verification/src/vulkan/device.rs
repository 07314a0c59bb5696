use vstd::prelude::*;
use crate::vulkan::queue_family::{is_first_match, EngineQueueFamily, PolishedQueueFamilies};

verus! {

/// `VK_PHYSICAL_DEVICE_TYPE_DISCRETE_GPU`.
pub const PHYSICAL_DEVICE_TYPE_DISCRETE_GPU: i32 = 2;

/// Which devices are discrete GPUs.
pub open spec fn discrete_map(device_types: Seq<i32>) -> Seq<bool> {
    Seq::new(device_types.len(), |i: int| device_types[i] == PHYSICAL_DEVICE_TYPE_DISCRETE_GPU)
}

/// Picks the physical device among the enumerated ones, given their device types:
/// the first discrete GPU, else the first device. The device is described with its
/// own properties.
pub fn pick_physical_device(device_types: &[i32]) -> (picked: usize)
    requires
        device_types@.len() > 0,
    ensures
        (exists|i: int| is_first_match(discrete_map(device_types@), i)) ==> is_first_match(
            discrete_map(device_types@),
            picked as int,
        ),
        !(exists|i: int| is_first_match(discrete_map(device_types@), i)) ==> picked == 0,
        picked < device_types@.len(),
        (exists|i: int| 0 <= i < device_types@.len() && device_types@[i] == PHYSICAL_DEVICE_TYPE_DISCRETE_GPU)
            ==> device_types@[picked as int] == PHYSICAL_DEVICE_TYPE_DISCRETE_GPU,
        forall|j: int| 0 <= j < picked ==> device_types@[j] != PHYSICAL_DEVICE_TYPE_DISCRETE_GPU,
        (forall|i: int| 0 <= i < device_types@.len() ==> device_types@[i] != PHYSICAL_DEVICE_TYPE_DISCRETE_GPU)
            ==> picked == 0,
{
    let mut index: usize = 0;
    while index < device_types.len()
        invariant
            index <= device_types@.len(),
            forall|j: int| 0 <= j < index ==> device_types@[j] != PHYSICAL_DEVICE_TYPE_DISCRETE_GPU,
        decreases device_types@.len() - index,
    {
        if device_types[index] == PHYSICAL_DEVICE_TYPE_DISCRETE_GPU {
            proof {
                assert(discrete_map(device_types@)[index as int]);
                assert(is_first_match(discrete_map(device_types@), index as int));
                assert forall|i: int| is_first_match(discrete_map(device_types@), i) implies i == index as int by {
                    if i < index as int {
                        assert(discrete_map(device_types@)[i]);
                    } else if i > index as int {
                        assert(!discrete_map(device_types@)[index as int]);
                    }
                }
            }
            return index;
        }
        index = index + 1;
    }
    proof {
        assert forall|i: int| !is_first_match(discrete_map(device_types@), i) by {
            if 0 <= i < device_types@.len() {
                assert(!discrete_map(device_types@)[i]);
            }
        }
    }
    0
}

/// The `i`-th queue family as enumerated: numbered by its position.
pub open spec fn family_at(queue_flags: Seq<u32>, i: int) -> EngineQueueFamily {
    EngineQueueFamily { index: i as u32, queue_flags: queue_flags[i] }
}

/// The device's queue families in enumeration order, numbered by position.
pub fn queue_families_from_flags(queue_flags: &[u32]) -> (families: Vec<EngineQueueFamily>)
    ensures
        families@.len() == queue_flags@.len(),
        forall|i: int|
            0 <= i < queue_flags@.len() ==> #[trigger] families@[i] == family_at(queue_flags@, i),
{
    let mut families: Vec<EngineQueueFamily> = Vec::new();
    let mut i: usize = 0;
    while i < queue_flags.len()
        invariant
            i <= queue_flags@.len(),
            families@.len() == i,
            forall|k: int|
                0 <= k < i ==> #[trigger] families@[k] == family_at(queue_flags@, k),
        decreases queue_flags@.len() - i,
    {
        families.push(EngineQueueFamily { index: i as u32, queue_flags: queue_flags[i] });
        i = i + 1;
    }
    families
}

/// A memory heap size in bytes, expressed in the whole "GB" the device log reports
/// (bytes / 1024 / 1024 / 1000).
pub fn memory_size_in_gb(heap_size: u64) -> (gb: u64)
    ensures
        gb == heap_size / 1024 / 1024 / 1000,
{
    heap_size / 1024 / 1024 / 1000
}

/// The distinct queue family indices of the four roles; one queue is created per
/// distinct family.
pub open spec fn role_indices(qfs: PolishedQueueFamilies) -> Set<u32> {
    set![qfs.graphics.index, qfs.present.index, qfs.compute.index, qfs.transfer.index]
}

fn push_unique(indices: &mut Vec<u32>, index: u32)
    requires
        old(indices)@.no_duplicates(),
    ensures
        final(indices)@.no_duplicates(),
        final(indices)@.to_set() == old(indices)@.to_set().insert(index),
{
    let mut i: usize = 0;
    while i < indices.len()
        invariant
            i <= indices@.len(),
            indices@ == old(indices)@,
            indices@.no_duplicates(),
            forall|k: int| 0 <= k < i ==> indices@[k] != index,
        decreases indices@.len() - i,
    {
        if indices[i] == index {
            proof {
                assert(indices@.to_set().contains(index));
                assert(indices@.to_set().insert(index) =~= indices@.to_set());
            }
            return;
        }
        i = i + 1;
    }
    let ghost before = indices@;
    indices.push(index);
    proof {
        before.lemma_push_to_set_commute(index);
        assert forall|a: int, b: int| 0 <= a < indices@.len() && 0 <= b < indices@.len() && a != b
            implies indices@[a] != indices@[b] by {
            if a == before.len() as int {
                assert(indices@[b] == before[b]);
            } else if b == before.len() as int {
                assert(indices@[a] == before[a]);
            }
        }
    }
}

/// The queue family indices to create queues for: each role's family once.
pub fn unique_queue_family_indices(qfs: &PolishedQueueFamilies) -> (indices: Vec<u32>)
    ensures
        indices@.no_duplicates(),
        indices@.to_set() == role_indices(*qfs),
{
    let mut indices: Vec<u32> = Vec::new();
    proof {
        assert(indices@.to_set() =~= Set::<u32>::empty());
    }
    push_unique(&mut indices, qfs.graphics.index);
    push_unique(&mut indices, qfs.present.index);
    push_unique(&mut indices, qfs.compute.index);
    push_unique(&mut indices, qfs.transfer.index);
    proof {
        assert(indices@.to_set() =~= role_indices(*qfs));
    }
    indices
}

/// The first-match description of the pick agrees with the device types themselves:
/// some device is the first discrete GPU exactly when some device is a discrete GPU,
/// and then it is a discrete GPU with no discrete GPU enumerated before it.
pub proof fn lemma_discrete_pick(device_types: Seq<i32>, picked: int)
    ensures
        (exists|i: int| is_first_match(discrete_map(device_types), i)) <==> (exists|i: int|
            0 <= i < device_types.len() && device_types[i] == PHYSICAL_DEVICE_TYPE_DISCRETE_GPU),
        is_first_match(discrete_map(device_types), picked) <==> (0 <= picked < device_types.len()
            && device_types[picked] == PHYSICAL_DEVICE_TYPE_DISCRETE_GPU && forall|j: int|
            0 <= j < picked ==> device_types[j] != PHYSICAL_DEVICE_TYPE_DISCRETE_GPU),
{
    let ok = discrete_map(device_types);
    if exists|i: int| 0 <= i < device_types.len() && device_types[i] == PHYSICAL_DEVICE_TYPE_DISCRETE_GPU {
        let i = choose|i: int| 0 <= i < device_types.len() && device_types[i] == PHYSICAL_DEVICE_TYPE_DISCRETE_GPU;
        lemma_first_discrete_exists(ok, i);
    }
    if is_first_match(ok, picked) {
        assert(ok[picked]);
        assert forall|j: int| 0 <= j < picked implies device_types[j] != PHYSICAL_DEVICE_TYPE_DISCRETE_GPU by {
            assert(!ok[j]);
        }
    }
    if exists|i: int| is_first_match(ok, i) {
        let i = choose|i: int| is_first_match(ok, i);
        assert(ok[i]);
    }
}

proof fn lemma_first_discrete_exists(ok: Seq<bool>, i: int)
    requires
        0 <= i < ok.len(),
        ok[i],
    ensures
        exists|k: int| is_first_match(ok, k),
    decreases i,
{
    if exists|j: int| 0 <= j < i && ok[j] {
        let j = choose|j: int| 0 <= j < i && ok[j];
        lemma_first_discrete_exists(ok, j);
    } else {
        assert(is_first_match(ok, i));
    }
}

} // verus!
