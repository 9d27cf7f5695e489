//! Choosing a device memory type for an allocation.

use vstd::prelude::*;

verus! {

/// The number of entries in the device's memory-type table (`VK_MAX_MEMORY_TYPES`).
pub const MAX_MEMORY_TYPES: u32 = 32;

/// What the logic reads of a physical device's memory properties: how many
/// memory types the device has, and the raw `VkMemoryPropertyFlags` of each
/// entry of its memory-type table.
pub struct MemoryProperties {
    pub memory_type_count: u32,
    pub memory_type_flags: Vec<u32>,
}

/// Calls `ash::vk::MemoryPropertyFlags::contains` on two raw flag words.
/// Claims what ash's source computes: every bit of `required` is set in
/// `available`.
#[verifier::external_body]
fn memory_flags_contain(available: u32, required: u32) -> (r: bool)
    ensures
        r == (available & required == required),
{
    ash::vk::MemoryPropertyFlags::from_raw(available).contains(
        ash::vk::MemoryPropertyFlags::from_raw(required),
    )
}

/// Memory type `i` is allowed by the resource's `type_filter` bit mask and
/// has every property asked for.
pub open spec fn memory_type_suitable(
    memory_properties: MemoryProperties,
    i: int,
    type_filter: u32,
    properties: u32,
) -> bool {
    &&& 0 <= i < 32
    &&& type_filter & (1u32 << (i as u32)) != 0
    &&& memory_properties.memory_type_flags@[i] & properties == properties
}

/// The first memory type, among the device's `memory_type_count` types, that
/// the filter allows and that has all of `properties`; `None` when there is
/// none.
pub fn find_memory_type(memory_properties: &MemoryProperties, type_filter: u32, properties: u32) -> (r:
    Option<u32>)
    requires
        memory_properties.memory_type_count <= MAX_MEMORY_TYPES,
        memory_properties.memory_type_count <= memory_properties.memory_type_flags.len(),
    ensures
        match r {
            Some(i) => {
                &&& i < memory_properties.memory_type_count
                &&& memory_type_suitable(*memory_properties, i as int, type_filter, properties)
                &&& forall|j: int|
                    0 <= j < i ==> !memory_type_suitable(
                        *memory_properties,
                        j,
                        type_filter,
                        properties,
                    )
            },
            None => forall|j: int|
                0 <= j < memory_properties.memory_type_count ==> !memory_type_suitable(
                    *memory_properties,
                    j,
                    type_filter,
                    properties,
                ),
        },
{
    let memory_count = memory_properties.memory_type_count;
    let mut index: u32 = 0;
    while index < memory_count
        invariant
            index <= memory_count,
            memory_count == memory_properties.memory_type_count,
            memory_count <= MAX_MEMORY_TYPES,
            memory_count <= memory_properties.memory_type_flags.len(),
            forall|j: int|
                0 <= j < index ==> !memory_type_suitable(*memory_properties, j, type_filter, properties),
        decreases memory_count - index,
    {
        let allowed = (type_filter & (1u32 << index)) != 0;
        if allowed && memory_flags_contain(memory_properties.memory_type_flags[index as usize], properties) {
            return Some(index);
        }
        index += 1;
    }
    None
}

} // verus!
