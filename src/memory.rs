//! Memory-type selection for buffers, and their byte lengths.

use vstd::prelude::*;

verus! {

/// Memory that the device reaches fastest.
pub const DEVICE_LOCAL: u16 = 0x1;

/// Memory that the host can map.
pub const CPU_VISIBLE: u16 = 0x2;

/// Host writes become visible to the device without an explicit flush.
pub const COHERENT: u16 = 0x4;

/// Host reads of mapped memory go through a cache.
pub const CPU_CACHED: u16 = 0x8;

/// Memory that is committed only when the device uses it.
pub const LAZILY_ALLOCATED: u16 = 0x10;

/// A set of memory property flags, as the bits of gfx-hal's `Properties`.
#[derive(Clone, Copy, Debug, PartialEq, Eq, Structural)]
pub struct MemoryProperties {
    pub bits: u16,
}

impl MemoryProperties {
    /// Every flag of `other` is set in `self`.
    pub open spec fn includes(self, other: MemoryProperties) -> bool {
        self.bits & other.bits == other.bits
    }

    pub fn contains(&self, other: MemoryProperties) -> (r: bool)
        ensures
            r == self.includes(other),
    {
        self.bits & other.bits == other.bits
    }
}

/// One memory type that the adapter offers.
#[derive(Clone, Copy, Debug, PartialEq, Eq, Structural)]
pub struct MemoryTypeInfo {
    pub properties: MemoryProperties,
    pub heap_index: usize,
}

/// Bit `id` of a requirements mask is set.
pub open spec fn type_allowed(type_mask: u64, id: int) -> bool {
    0 <= id < 64 && type_mask & (1u64 << (id as u64)) != 0
}

/// Memory type `id` is allowed by the mask and has every required flag.
pub open spec fn qualifies(
    types: Seq<MemoryTypeInfo>,
    type_mask: u64,
    required: MemoryProperties,
    id: int,
) -> bool {
    0 <= id < types.len() && type_allowed(type_mask, id) && types[id].properties.includes(required)
}

/// `id` is the lowest memory type that qualifies.
pub open spec fn is_first_qualifying(
    types: Seq<MemoryTypeInfo>,
    type_mask: u64,
    required: MemoryProperties,
    id: int,
) -> bool {
    &&& qualifies(types, type_mask, required, id)
    &&& forall|j: int| 0 <= j < id ==> !qualifies(types, type_mask, required, j)
}

/// Selects the first memory type whose bit is set in `type_mask` and whose
/// flags include `required`; `None` where no type qualifies.
pub fn find_memory_type(
    memory_types: &Vec<MemoryTypeInfo>,
    type_mask: u64,
    required: MemoryProperties,
) -> (r: Option<usize>)
    ensures
        match r {
            Some(id) => is_first_qualifying(memory_types@, type_mask, required, id as int),
            None => forall|j: int| !qualifies(memory_types@, type_mask, required, j),
        },
{
    let n = memory_types.len();
    let mut id: usize = 0;
    while id < n
        invariant
            n == memory_types@.len(),
            id <= n,
            forall|j: int| 0 <= j < id ==> !qualifies(memory_types@, type_mask, required, j),
        decreases n - id,
    {
        let allowed = id < 64 && type_mask & (1u64 << (id as u64)) != 0;
        if allowed && memory_types[id].properties.contains(required) {
            return Some(id);
        }
        id = id + 1;
    }
    None
}

/// Where exactly one memory type qualifies, selection picks that one,
/// wherever it stands in the table.
pub proof fn lemma_single_qualifying_type_is_selected(
    types: Seq<MemoryTypeInfo>,
    type_mask: u64,
    required: MemoryProperties,
    k: int,
)
    requires
        qualifies(types, type_mask, required, k),
        forall|j: int| j != k ==> !qualifies(types, type_mask, required, j),
    ensures
        is_first_qualifying(types, type_mask, required, k),
        forall|id: int| is_first_qualifying(types, type_mask, required, id) ==> id == k,
        exists|j: int| qualifies(types, type_mask, required, j),
{
}

/// The byte length of `item_count` items of `stride` bytes each, where it
/// fits in 64 bits.
pub fn buffer_byte_len(item_count: usize, stride: usize) -> (r: Option<u64>)
    ensures
        item_count * stride <= u64::MAX ==> r == Some((item_count * stride) as u64),
        item_count * stride > u64::MAX ==> r is None,
{
    (item_count as u64).checked_mul(stride as u64)
}

} // verus!
