//! Which of a device's memory types a resource is allocated from.

use vstd::prelude::*;
use crate::vulkan::flags::{flags_contain, memory_flags_contain};

verus! {

/// The most memory types a device can report.
pub const MAX_MEMORY_TYPES: usize = 32;

/// Memory type `index` is allowed by `type_filter`, a mask with one bit
/// for each memory type, counted from the lowest.
pub open spec fn type_allowed(type_filter: u32, index: u32) -> bool {
    type_filter & (1u32 << index) != 0
}

/// Memory type `index` may hold the resource and has all the wanted
/// properties.
pub open spec fn type_fits(
    type_filter: u32,
    memory_types: Seq<u32>,
    wanted: u32,
    index: int,
) -> bool {
    &&& 0 <= index < memory_types.len()
    &&& type_allowed(type_filter, index as u32)
    &&& flags_contain(memory_types[index], wanted)
}

/// The first memory type that `type_filter` allows and whose property
/// bits include all of `wanted`. `memory_types` holds the property bits of
/// the device's memory types, in order.
pub fn find_memory_type(type_filter: u32, memory_types: &[u32], wanted: u32) -> (found: Option<
    u32,
>)
    requires
        memory_types@.len() <= MAX_MEMORY_TYPES,
    ensures
        match found {
            Some(i) => {
                &&& type_fits(type_filter, memory_types@, wanted, i as int)
                &&& forall|j: int| 0 <= j < i ==> !type_fits(type_filter, memory_types@, wanted, j)
            },
            None => forall|j: int|
                0 <= j < memory_types@.len() ==> !type_fits(type_filter, memory_types@, wanted, j),
        },
{
    let mut i: u32 = 0;
    while (i as usize) < memory_types.len()
        invariant
            i <= memory_types@.len() <= MAX_MEMORY_TYPES,
            forall|j: int| 0 <= j < i ==> !type_fits(type_filter, memory_types@, wanted, j),
        decreases memory_types@.len() - i,
    {
        if (type_filter & (1u32 << i)) != 0 && memory_flags_contain(
            memory_types[i as usize],
            wanted,
        ) {
            return Some(i);
        }
        i += 1;
    }
    None
}

} // verus!
